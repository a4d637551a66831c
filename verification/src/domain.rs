//! A user's view of a trend: the raw trend, a memo and a status.

use crate::date::Date;
use crate::raw::{RawTrendInfo, RawTrendView};
use crate::text::{decimal, decimal_string, same_text};
use vstd::prelude::*;
use vstd::utf8::encode_utf8;

verus! {

/// The length of `text` in bytes of UTF-8. This is the length by which a
/// memo is bounded.
pub open spec fn byte_len(text: Seq<char>) -> nat {
    encode_utf8(text).len()
}

/// How far a user has got with a trend. `New` is where every trend starts;
/// once it has left `New` it does not come back.
#[derive(Debug, Clone, Copy, PartialEq, Eq, Structural)]
pub enum Status {
    New,
    Reading,
    ToDo,
    Done,
}

#[derive(Debug)]
pub enum StatusError {
    /// The change from the first status to the second is not allowed.
    InvalidStatusChange(Status, Status),
    /// Holds the text that names no status.
    InvalidStatus(String),
}

impl Status {
    /// The canonical name of the status, as it is persisted.
    pub open spec fn name(self) -> Seq<char> {
        match self {
            Status::New => "New"@,
            Status::Reading => "Reading"@,
            Status::ToDo => "ToDo"@,
            Status::Done => "Done"@,
        }
    }

    /// The status that `name` is the canonical name of.
    pub open spec fn named(name: Seq<char>) -> Option<Status> {
        if name == "New"@ {
            Some(Status::New)
        } else if name == "Reading"@ {
            Some(Status::Reading)
        } else if name == "ToDo"@ {
            Some(Status::ToDo)
        } else if name == "Done"@ {
            Some(Status::Done)
        } else {
            None
        }
    }

    /// Whether a trend in status `self` may go to status `to`: every change
    /// is allowed but the one from another status back to `New`.
    pub open spec fn may_become(self, to: Status) -> bool {
        self == to || self == Status::New || to != Status::New
    }

    /// Every status is the one that its name names.
    pub proof fn lemma_name_round_trip(self)
        ensures
            Status::named(self.name()) == Some(self),
    {
        reveal_strlit("New");
        reveal_strlit("Reading");
        reveal_strlit("ToDo");
        reveal_strlit("Done");
        assert("Reading"@[0] != "New"@[0]);
        assert("ToDo"@[0] != "New"@[0]);
        assert("ToDo"@[0] != "Reading"@[0]);
        assert("Done"@[0] != "New"@[0]);
        assert("Done"@[0] != "Reading"@[0]);
        assert("Done"@[0] != "ToDo"@[0]);
    }

    /// Reads a status from its canonical name.
    pub fn from_str(s: &str) -> (r: Result<Self, StatusError>)
        ensures
            match Status::named(s@) {
                Some(status) => r == Ok::<Status, StatusError>(status),
                None => r matches Err(StatusError::InvalidStatus(text)) && text@ == s@,
            },
    {
        if same_text(s, "New") {
            Ok(Status::New)
        } else if same_text(s, "Reading") {
            Ok(Status::Reading)
        } else if same_text(s, "ToDo") {
            Ok(Status::ToDo)
        } else if same_text(s, "Done") {
            Ok(Status::Done)
        } else {
            Err(StatusError::InvalidStatus(s.to_owned()))
        }
    }

    /// The status after a change from `self` to `to`, where that change is
    /// allowed.
    pub fn change_status(self, to: Self) -> (r: Result<Self, StatusError>)
        ensures
            self.may_become(to) ==> r == Ok::<Status, StatusError>(to),
            !self.may_become(to) ==> r == Err::<Status, StatusError>(
                StatusError::InvalidStatusChange(self, Status::New),
            ),
            self == to ==> r == Ok::<Status, StatusError>(self),
            self == Status::New ==> r is Ok,
            self != Status::New && to == Status::New ==> r is Err,
    {
        if self == to {
            Ok(self)
        } else {
            match (self, to) {
                (Status::New, s) => Ok(s),
                (s, Status::New) => Err(StatusError::InvalidStatusChange(s, Status::New)),
                _ => Ok(to),
            }
        }
    }

    pub fn to_str(&self) -> (name: &str)
        ensures
            name@ == self.name(),
    {
        match self {
            Status::New => "New",
            Status::Reading => "Reading",
            Status::ToDo => "ToDo",
            Status::Done => "Done",
        }
    }
}

impl StatusError {
    /// The error as a line of text.
    pub open spec fn message(self) -> Seq<char> {
        match self {
            StatusError::InvalidStatusChange(from, to) => "InvalidStatusChange: "@ + from.name()
                + " -> "@ + to.name(),
            StatusError::InvalidStatus(text) => "InvalidStatus: "@ + text@,
        }
    }

    pub fn to_string(&self) -> (text: String)
        ensures
            text@ == self.message(),
    {
        match self {
            StatusError::InvalidStatusChange(from, to) => {
                let mut text = "InvalidStatusChange: ".to_owned();
                text.append(from.to_str());
                text.append(" -> ");
                text.append(to.to_str());
                text
            },
            StatusError::InvalidStatus(s) => {
                let mut text = "InvalidStatus: ".to_owned();
                text.append(s.as_str());
                text
            },
        }
    }
}

#[derive(Debug)]
pub enum MemoError {
    /// Holds the length in bytes of the text that was refused.
    TooLong(usize),
}

impl MemoError {
    /// The error as a line of text.
    pub open spec fn message(self) -> Seq<char> {
        match self {
            MemoError::TooLong(len) => "too long: "@ + decimal(len as nat),
        }
    }

    pub fn to_string(&self) -> (text: String)
        ensures
            text@ == self.message(),
    {
        match self {
            MemoError::TooLong(len) => {
                let mut text = "too long: ".to_owned();
                text.append(decimal_string(*len).as_str());
                text
            },
        }
    }
}

/// A user's note on a trend: free text of at most [`Memo::MAX_LEN`] bytes.
#[derive(Debug, PartialEq, Eq)]
pub struct Memo(String);

impl View for Memo {
    type V = Seq<char>;

    closed spec fn view(&self) -> Seq<char> {
        self.0@
    }
}

impl Clone for Memo {
    fn clone(&self) -> (copy: Self)
        ensures
            copy == *self,
    {
        proof {
            use_type_invariant(self);
        }
        Self(self.0.clone())
    }
}

impl Memo {
    /// The greatest length of a memo, in bytes of UTF-8.
    pub const MAX_LEN: usize = 500;

    #[verifier::type_invariant]
    spec fn fits(self) -> bool {
        byte_len(self@) <= Memo::MAX_LEN
    }

    /// The empty memo.
    pub fn new() -> (memo: Self)
        ensures
            memo@ == Seq::<char>::empty(),
    {
        Self(String::new())
    }

    /// The text of the memo.
    pub fn as_str(&self) -> (text: &str)
        ensures
            text@ == self@,
            byte_len(text@) <= Memo::MAX_LEN,
    {
        proof {
            use_type_invariant(self);
        }
        self.0.as_str()
    }

    /// Replaces the memo by `new_memo` as it stands, if that is not too
    /// long; else the memo stays as it is.
    pub fn change_memo(&mut self, new_memo: String) -> (r: Result<(), MemoError>)
        ensures
            byte_len(new_memo@) <= Memo::MAX_LEN ==> r is Ok && final(self)@ == new_memo@,
            byte_len(new_memo@) > Memo::MAX_LEN ==> *final(self) == *old(self) && (r matches Err(
                MemoError::TooLong(len),
            ) && len == byte_len(new_memo@)),
    {
        let len = new_memo.as_str().as_bytes().len();
        if len > Self::MAX_LEN {
            return Err(MemoError::TooLong(len));
        }
        self.0 = new_memo;
        Ok(())
    }
}

#[derive(Debug)]
pub enum UserTrendInfoError {
    InvalidMemo(MemoError),
    InvalidStatus(StatusError),
}

impl UserTrendInfoError {
    /// The error as a line of text.
    pub open spec fn message(self) -> Seq<char> {
        match self {
            UserTrendInfoError::InvalidMemo(e) => "InvalidMemo: "@ + e.message(),
            UserTrendInfoError::InvalidStatus(e) => "InvalidStatus: "@ + e.message(),
        }
    }

    pub fn to_string(&self) -> (text: String)
        ensures
            text@ == self.message(),
    {
        match self {
            UserTrendInfoError::InvalidMemo(e) => {
                let mut text = "InvalidMemo: ".to_owned();
                text.append(e.to_string().as_str());
                text
            },
            UserTrendInfoError::InvalidStatus(e) => {
                let mut text = "InvalidStatus: ".to_owned();
                text.append(e.to_string().as_str());
                text
            },
        }
    }
}

/// The words of the error with which a trend refuses the memo `memo`, which
/// is too long for it.
pub open spec fn memo_refusal(memo: Seq<char>) -> Seq<char> {
    "InvalidMemo: "@ + ("too long: "@ + decimal(byte_len(memo)))
}

/// Identifies a user's trend in the store. The store allots it; a trend
/// that was never saved has an empty one.
#[derive(Debug, PartialEq, Eq)]
pub struct UserTrendInfoId(pub String);

impl View for UserTrendInfoId {
    type V = Seq<char>;

    open spec fn view(&self) -> Seq<char> {
        self.0@
    }
}

impl Clone for UserTrendInfoId {
    fn clone(&self) -> (copy: Self)
        ensures
            copy == *self,
    {
        Self(self.0.clone())
    }
}

/// What a [`UserTrendInfo`] stands for in specifications.
pub struct UserTrendView {
    pub id: Seq<char>,
    pub raw_info: RawTrendView,
    pub memo: Seq<char>,
    pub status: Status,
}

impl UserTrendView {
    /// The memo fits a [`Memo`].
    pub open spec fn memo_fits(self) -> bool {
        byte_len(self.memo) <= Memo::MAX_LEN
    }
}

/// A raw trend as one user sees it, with the user's memo and status.
/// Only `change_memo` and `change_status` change it.
#[derive(Debug)]
pub struct UserTrendInfo {
    id: UserTrendInfoId,
    raw_info: RawTrendInfo,
    memo: Memo,
    status: Status,
}

impl View for UserTrendInfo {
    type V = UserTrendView;

    closed spec fn view(&self) -> UserTrendView {
        UserTrendView {
            id: self.id@,
            raw_info: self.raw_info@,
            memo: self.memo@,
            status: self.status,
        }
    }
}

impl DeepView for UserTrendInfo {
    type V = UserTrendView;

    open spec fn deep_view(&self) -> UserTrendView {
        self@
    }
}

impl Clone for UserTrendInfo {
    fn clone(&self) -> (copy: Self)
        ensures
            copy == *self,
    {
        Self {
            id: self.id.clone(),
            raw_info: self.raw_info.clone(),
            memo: self.memo.clone(),
            status: self.status,
        }
    }
}

impl UserTrendInfo {
    /// A trend that the user has not touched yet: status `New`, empty memo.
    pub fn new(id: UserTrendInfoId, raw_info: RawTrendInfo) -> (info: Self)
        ensures
            info@ == (UserTrendView {
                id: id@,
                raw_info: raw_info@,
                memo: Seq::empty(),
                status: Status::New,
            }),
    {
        Self { id, raw_info, memo: Memo::new(), status: Status::New }
    }

    pub fn id(&self) -> (id: &UserTrendInfoId)
        ensures
            id@ == self@.id,
    {
        &self.id
    }

    pub fn raw_info(&self) -> (raw_info: &RawTrendInfo)
        ensures
            raw_info@ == self@.raw_info,
    {
        &self.raw_info
    }

    pub fn memo(&self) -> (memo: &str)
        ensures
            memo@ == self@.memo,
            self@.memo_fits(),
    {
        self.memo.as_str()
    }

    pub fn title(&self) -> (title: &str)
        ensures
            title@ == self@.raw_info.title,
    {
        self.raw_info.title()
    }

    pub fn link(&self) -> (link: &str)
        ensures
            link@ == self@.raw_info.link,
    {
        self.raw_info.link()
    }

    /// The name of the service that the trend came from.
    pub fn from(&self) -> (name: &str)
        ensures
            name@ == self@.raw_info.from,
    {
        self.raw_info.from()
    }

    pub fn created_at(&self) -> (date: &Date)
        ensures
            date@ == self@.raw_info.created_at,
    {
        self.raw_info.created_at()
    }

    /// Moves the trend to `new_status`, where the status it has may become
    /// `new_status`; else the trend stays as it is.
    pub fn change_status(&mut self, new_status: Status) -> (r: Result<(), UserTrendInfoError>)
        ensures
            old(self)@.status.may_become(new_status) ==> r is Ok && final(self)@ == (UserTrendView {
                status: new_status,
                ..old(self)@
            }),
            !old(self)@.status.may_become(new_status) ==> *final(self) == *old(self) && r == Err::<
                (),
                UserTrendInfoError,
            >(
                UserTrendInfoError::InvalidStatus(
                    StatusError::InvalidStatusChange(old(self)@.status, Status::New),
                ),
            ),
    {
        match self.status.change_status(new_status) {
            Ok(status) => {
                self.status = status;
                Ok(())
            },
            Err(e) => Err(UserTrendInfoError::InvalidStatus(e)),
        }
    }

    pub fn status(&self) -> (status: Status)
        ensures
            status == self@.status,
    {
        self.status
    }

    /// Replaces the memo by `new_memo` as it stands, if that is at most
    /// [`Memo::MAX_LEN`] bytes long; else the trend stays as it is.
    pub fn change_memo(&mut self, new_memo: String) -> (r: Result<(), UserTrendInfoError>)
        ensures
            byte_len(new_memo@) <= Memo::MAX_LEN ==> r is Ok && final(self)@ == (UserTrendView {
                memo: new_memo@,
                ..old(self)@
            }),
            byte_len(new_memo@) > Memo::MAX_LEN ==> *final(self) == *old(self) && (r matches Err(
                UserTrendInfoError::InvalidMemo(MemoError::TooLong(len)),
            ) && len == byte_len(new_memo@)),
    {
        match self.memo.change_memo(new_memo) {
            Ok(()) => Ok(()),
            Err(e) => Err(UserTrendInfoError::InvalidMemo(e)),
        }
    }
}

} // verus!
