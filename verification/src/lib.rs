//! Trend triage: raw trend items collected from feeds, a user's annotated
//! view of them (memo and status), and the repository contract that
//! persists that view per user.

pub mod date;
pub mod domain;
pub mod raw;
pub mod repository;
pub mod text;
pub mod use_case;
pub mod user;
