//! Saving and updating a user's trends through a repository.

use crate::date::{parsed_date, Date, DateView};
use crate::domain::{byte_len, Memo, Status, UserTrendInfo, UserTrendView};
use crate::raw::{RawTrendInfo, RawTrendView};
use crate::repository::{TrendInfoEntityErrorView, TrendInfoEntityView};
use crate::user::UserId;
use vstd::prelude::*;

verus! {

#[derive(Debug)]
pub enum UserTrendInfoRepositoryError {
    /// The store failed for a reason of its own.
    SaveError(String),
    /// The user has a record with the link already.
    AlreadyExists(String),
    /// A record does not become a trend; holds the words of the reason.
    ConvertError(String),
    /// No record has the id.
    NotFoundError(String),
}

/// The user `user_id` has a record with the link `link`.
pub open spec fn holds_link(
    records: Seq<TrendInfoEntityView>,
    user_id: Seq<char>,
    link: Seq<char>,
) -> bool {
    exists|i: int|
        0 <= i < records.len() && (#[trigger] records[i]).user_id == user_id && records[i].link
            == link
}

/// The user `user_id` has a record.
pub open spec fn holds_user(records: Seq<TrendInfoEntityView>, user_id: Seq<char>) -> bool {
    exists|i: int| 0 <= i < records.len() && (#[trigger] records[i]).user_id == user_id
}

/// Some record has the id `id`.
pub open spec fn holds_id(records: Seq<TrendInfoEntityView>, id: Seq<char>) -> bool {
    exists|i: int| 0 <= i < records.len() && (#[trigger] records[i]).id == id
}

/// The record at `at` is the first one with the id `id`.
pub open spec fn is_first_with_id(
    records: Seq<TrendInfoEntityView>,
    id: Seq<char>,
    at: int,
) -> bool {
    &&& 0 <= at < records.len()
    &&& records[at].id == id
    &&& forall|i: int| 0 <= i < at ==> (#[trigger] records[i]).id != id
}

impl SaveNewTrendView {
    /// The record that a store makes of the request when it saves it under
    /// the id `id` on the day `day`: it holds what the request holds, and
    /// the creation date and the date of the last change are both `day`.
    pub open spec fn saved(self, id: Seq<char>, day: DateView) -> TrendInfoEntityView {
        TrendInfoEntityView {
            id,
            user_id: self.user_id,
            link: self.raw_trend.link,
            title: self.raw_trend.title,
            desc: self.raw_trend.desc,
            memo: self.memo,
            from: self.raw_trend.from,
            status: self.status.name(),
            created_at: day.canonical_text(),
            updated_at: day.canonical_text(),
        }
    }
}

impl TrendInfoEntityView {
    /// The record once a store has written the trend `trend` over it on
    /// the day `day`: memo and status are those of the trend, the date of
    /// the last change is `day`, and nothing else has changed.
    pub open spec fn updated(self, trend: UserTrendView, day: DateView) -> TrendInfoEntityView {
        TrendInfoEntityView {
            memo: trend.memo,
            status: trend.status.name(),
            updated_at: day.canonical_text(),
            ..self
        }
    }
}

/// `entity` is a record that a store makes of the request `info` on some
/// day. The id is the store's.
pub open spec fn is_saved_record(entity: TrendInfoEntityView, info: SaveNewTrendView) -> bool {
    exists|day: DateView| day.is_calendar_date() && entity == #[trigger] info.saved(entity.id, day)
}

/// `after` is the record `before` once a store has written the trend
/// `trend` over it on some day.
pub open spec fn is_updated_record(
    after: TrendInfoEntityView,
    before: TrendInfoEntityView,
    trend: UserTrendView,
) -> bool {
    exists|day: DateView| day.is_calendar_date() && after == #[trigger] before.updated(trend, day)
}

/// `r` hands on the outcome `outcome` of turning a record into a trend.
pub open spec fn is_converted(
    r: Result<UserTrendInfo, UserTrendInfoRepositoryError>,
    outcome: Result<UserTrendView, TrendInfoEntityErrorView>,
) -> bool {
    match outcome {
        Ok(trend) => r matches Ok(info) && info@ == trend,
        Err(error) => r matches Err(UserTrendInfoRepositoryError::ConvertError(text)) && text@
            == error.message(),
    }
}

/// What `save` does with the request `info` to a store that holds
/// `before`: the result `r`, and the records `after` that the store holds
/// then. `fails` tells whether the store can fail for a reason of its own.
///
/// Where the user has a record with the link of the request, the request is
/// refused and nothing changes. A request with a memo that is too long for
/// a trend is not saved either. Else the store puts a record of the
/// request behind the others, under an id that no record has yet, and hands
/// back the trend that the record becomes, which it may fail to become. A
/// store that can fail for a reason of its own may do so in place of
/// saving; then nothing changes.
pub open spec fn is_save(
    before: Seq<TrendInfoEntityView>,
    info: SaveNewTrendView,
    after: Seq<TrendInfoEntityView>,
    r: Result<UserTrendInfo, UserTrendInfoRepositoryError>,
    fails: bool,
) -> bool {
    if holds_link(before, info.user_id, info.raw_trend.link) {
        r matches Err(UserTrendInfoRepositoryError::AlreadyExists(_)) && after == before
    } else if byte_len(info.memo) > Memo::MAX_LEN {
        r matches Err(UserTrendInfoRepositoryError::SaveError(_)) && after == before
    } else if fails && r matches Err(UserTrendInfoRepositoryError::SaveError(_)) {
        after == before
    } else {
        &&& after.len() == before.len() + 1
        &&& after.drop_last() == before
        &&& is_saved_record(after.last(), info)
        &&& !holds_id(before, after.last().id)
        &&& is_converted(r, after.last().to_trend())
    }
}

/// What `update` does with the trend `trend` to a store that holds
/// `before`: the result `r`, and the records `after` that the store holds
/// then. `fails` tells whether the store can fail for a reason of its own.
///
/// Where no record has the id of the trend, the update is refused and
/// nothing changes. Else the store writes memo and status of the trend over
/// the first record with that id, stamps it and hands the trend back as it
/// came. A store that can fail for a reason of its own may do so in place
/// of writing; then nothing changes.
pub open spec fn is_update(
    before: Seq<TrendInfoEntityView>,
    trend: UserTrendInfo,
    after: Seq<TrendInfoEntityView>,
    r: Result<UserTrendInfo, UserTrendInfoRepositoryError>,
    fails: bool,
) -> bool {
    if !holds_id(before, trend@.id) {
        r matches Err(UserTrendInfoRepositoryError::NotFoundError(_)) && after == before
    } else if fails && r matches Err(UserTrendInfoRepositoryError::SaveError(_)) {
        after == before
    } else {
        &&& r == Ok::<UserTrendInfo, UserTrendInfoRepositoryError>(trend)
        &&& after.len() == before.len()
        &&& forall|at: int| #[trigger]
            is_first_with_id(before, trend@.id, at) ==> after == before.update(at, after[at])
                && is_updated_record(after[at], before[at], trend@)
    }
}

/// No two records have one id.
pub open spec fn ids_are_distinct(records: Seq<TrendInfoEntityView>) -> bool {
    forall|i: int, j: int|
        0 <= i < j < records.len() ==> (#[trigger] records[i]).id != (#[trigger] records[j]).id
}

/// The trends of the user `user_id` among `records`, in the order of the
/// records, or the reason why the first of the user's records that does not
/// become a trend does not.
pub open spec fn listed(records: Seq<TrendInfoEntityView>, user_id: Seq<char>) -> Result<
    Seq<UserTrendView>,
    TrendInfoEntityErrorView,
>
    decreases records.len(),
{
    if records.len() == 0 {
        Ok(Seq::empty())
    } else {
        let last = records.last();
        match listed(records.drop_last(), user_id) {
            Err(error) => Err(error),
            Ok(trends) => if last.user_id != user_id {
                Ok(trends)
            } else {
                match last.to_trend() {
                    Ok(trend) => Ok(trends.push(trend)),
                    Err(error) => Err(error),
                }
            },
        }
    }
}

/// `r` is the result of `list` for the user `user_id` on a store that holds
/// `records`: all trends of the user, or a `ConvertError` as soon as one of
/// the user's records does not become a trend.
pub open spec fn is_list(
    records: Seq<TrendInfoEntityView>,
    user_id: Seq<char>,
    r: Result<Vec<UserTrendInfo>, UserTrendInfoRepositoryError>,
) -> bool {
    match listed(records, user_id) {
        Ok(trends) => r matches Ok(infos) && infos.deep_view() == trends,
        Err(error) => r matches Err(UserTrendInfoRepositoryError::ConvertError(text)) && text@
            == error.message(),
    }
}

/// A user without records has no trends, and listing them is no error.
pub proof fn lemma_list_without_records(records: Seq<TrendInfoEntityView>, user_id: Seq<char>)
    requires
        !holds_user(records, user_id),
    ensures
        listed(records, user_id) == Ok::<Seq<UserTrendView>, TrendInfoEntityErrorView>(
            Seq::empty(),
        ),
    decreases records.len(),
{
    if records.len() > 0 {
        let rest = records.drop_last();
        assert forall|i: int| 0 <= i < rest.len() implies (#[trigger] rest[i]).user_id
            != user_id by {
            assert(rest[i] == records[i]);
        }
        lemma_list_without_records(rest, user_id);
        assert(records.last() == records[records.len() - 1]);
        assert(records.last().user_id != user_id);
    }
}

/// Holds of the records of the user `user_id`.
pub open spec fn is_of_user(user_id: Seq<char>) -> spec_fn(TrendInfoEntityView) -> bool {
    |record: TrendInfoEntityView| record.user_id == user_id
}

/// `list` is all or nothing. Where every record of the user becomes a
/// trend, it hands out those trends, one for each record and in the order
/// of the records. Else it fails with the reason of the first record of
/// the user that does not become a trend.
pub proof fn lemma_listed_is_all_or_nothing(records: Seq<TrendInfoEntityView>, user_id: Seq<char>)
    ensures
        ({
            let mine = records.filter(is_of_user(user_id));
            match listed(records, user_id) {
                Ok(trends) => {
                    &&& trends.len() == mine.len()
                    &&& forall|i: int|
                        0 <= i < mine.len() ==> (#[trigger] mine[i]).to_trend() == Ok::<
                            UserTrendView,
                            TrendInfoEntityErrorView,
                        >(trends[i])
                },
                Err(error) => exists|i: int|
                    {
                        &&& 0 <= i < mine.len()
                        &&& (#[trigger] mine[i]).to_trend() == Err::<
                            UserTrendView,
                            TrendInfoEntityErrorView,
                        >(error)
                        &&& forall|k: int| 0 <= k < i ==> (#[trigger] mine[k]).to_trend() is Ok
                    },
            }
        }),
    decreases records.len(),
{
    reveal(Seq::filter);
    if records.len() > 0 {
        let rest = records.drop_last();
        let last = records.last();
        let mine = records.filter(is_of_user(user_id));
        let mine_before = rest.filter(is_of_user(user_id));
        lemma_listed_is_all_or_nothing(rest, user_id);
        match listed(rest, user_id) {
            Err(error) => {
                let i = choose|i: int|
                    {
                        &&& 0 <= i < mine_before.len()
                        &&& (#[trigger] mine_before[i]).to_trend() == Err::<
                            UserTrendView,
                            TrendInfoEntityErrorView,
                        >(error)
                        &&& forall|k: int|
                            0 <= k < i ==> (#[trigger] mine_before[k]).to_trend() is Ok
                    };
                assert(mine[i] == mine_before[i]);
                assert forall|k: int| 0 <= k < i implies (#[trigger] mine[k]).to_trend() is Ok by {
                    assert(mine[k] == mine_before[k]);
                }
            },
            Ok(trends) => {
                if last.user_id == user_id {
                    assert(mine == mine_before.push(last));
                    match last.to_trend() {
                        Ok(trend) => {
                            let all = trends.push(trend);
                            assert forall|i: int| 0 <= i < mine.len() implies (#[trigger] mine[i])
                                .to_trend() == Ok::<UserTrendView, TrendInfoEntityErrorView>(
                                all[i],
                            ) by {
                                if i < mine_before.len() {
                                    assert(mine[i] == mine_before[i]);
                                }
                            }
                        },
                        Err(error) => {
                            let i = mine_before.len() as int;
                            assert(mine[i] == last);
                            assert forall|k: int| 0 <= k < i implies (#[trigger] mine[k])
                                .to_trend() is Ok by {
                                assert(mine[k] == mine_before[k]);
                            }
                        },
                    }
                }
            },
        }
    }
}

/// The trend that a save hands back is the trend that was asked for: it
/// has the status and the memo of the request, and title, link,
/// description and service of its raw trend. Its id is the store's, its
/// date the day of the save.
pub proof fn lemma_saved_trend_is_the_request(
    before: Seq<TrendInfoEntityView>,
    info: SaveNewTrendView,
    after: Seq<TrendInfoEntityView>,
    r: Result<UserTrendInfo, UserTrendInfoRepositoryError>,
    fails: bool,
)
    requires
        is_save(before, info, after, r, fails),
        r is Ok,
    ensures
        r matches Ok(trend) && trend@.status == info.status && trend@.memo == info.memo
            && trend@.raw_info.title == info.raw_trend.title && trend@.raw_info.link
            == info.raw_trend.link && trend@.raw_info.desc == info.raw_trend.desc
            && trend@.raw_info.from == info.raw_trend.from && trend@.id == after.last().id,
{
    info.status.lemma_name_round_trip();
}

/// A store that does not fail for a reason of its own saves what it can: a
/// request for a link that the user does not have yet, with a memo that
/// fits a trend, puts one record behind the others, under an id that no
/// other record has and with both dates the day of the save. All that can
/// then keep the trend from being handed back is that the date of the
/// record does not read back.
pub proof fn lemma_save_puts_a_record(
    before: Seq<TrendInfoEntityView>,
    info: SaveNewTrendView,
    after: Seq<TrendInfoEntityView>,
    r: Result<UserTrendInfo, UserTrendInfoRepositoryError>,
)
    requires
        is_save(before, info, after, r, false),
        !holds_link(before, info.user_id, info.raw_trend.link),
        byte_len(info.memo) <= Memo::MAX_LEN,
    ensures
        after == before.push(after.last()),
        is_saved_record(after.last(), info),
        after.last().created_at == after.last().updated_at,
        forall|i: int| 0 <= i < before.len() ==> (#[trigger] after[i]).id != after.last().id,
        match parsed_date(after.last().created_at, Date::DEFAULT_FORMAT@) {
            Some(day) => r matches Ok(trend) && trend@ == (UserTrendView {
                id: after.last().id,
                raw_info: (RawTrendView { created_at: day, ..info.raw_trend }),
                memo: info.memo,
                status: info.status,
            }),
            None => r matches Err(UserTrendInfoRepositoryError::ConvertError(text)) && text@
                == TrendInfoEntityErrorView::InvalidDate(after.last().created_at).message(),
        },
{
    info.status.lemma_name_round_trip();
    assert(after =~= after.drop_last().push(after.last()));
    assert forall|i: int| 0 <= i < before.len() implies (#[trigger] after[i]).id
        != after.last().id by {
        assert(after[i] == before[i]);
    }
}

/// The link that was saved for a user is not saved for that user again:
/// after a save that put a record into the store, whether or not the record
/// became a trend, a save of the same link for the same user fails with
/// `AlreadyExists` and changes nothing.
pub proof fn lemma_second_save_is_refused(
    before: Seq<TrendInfoEntityView>,
    first: SaveNewTrendView,
    between: Seq<TrendInfoEntityView>,
    r1: Result<UserTrendInfo, UserTrendInfoRepositoryError>,
    second: SaveNewTrendView,
    after: Seq<TrendInfoEntityView>,
    r2: Result<UserTrendInfo, UserTrendInfoRepositoryError>,
    fails: bool,
)
    requires
        is_save(before, first, between, r1, fails),
        r1 is Ok || r1 matches Err(UserTrendInfoRepositoryError::ConvertError(_)),
        second.user_id == first.user_id,
        second.raw_trend.link == first.raw_trend.link,
        is_save(between, second, after, r2, fails),
    ensures
        r2 matches Err(UserTrendInfoRepositoryError::AlreadyExists(_)),
        after == between,
{
    let at = between.len() - 1;
    assert(between[at] == between.last());
    assert(between[at].user_id == second.user_id && between[at].link == second.raw_trend.link);
}

/// A store that does not fail for a reason of its own updates every trend
/// whose id it holds: the trend comes back as it went in, and memo, status
/// and the date of the last change of the first record with that id are
/// written over. No other record and nothing else of that record changes.
pub proof fn lemma_update_writes_one_record(
    before: Seq<TrendInfoEntityView>,
    trend: UserTrendInfo,
    after: Seq<TrendInfoEntityView>,
    r: Result<UserTrendInfo, UserTrendInfoRepositoryError>,
    at: int,
)
    requires
        is_update(before, trend, after, r, false),
        is_first_with_id(before, trend@.id, at),
    ensures
        r == Ok::<UserTrendInfo, UserTrendInfoRepositoryError>(trend),
        after.len() == before.len(),
        forall|i: int| 0 <= i < before.len() && i != at ==> #[trigger] after[i] == before[i],
        is_updated_record(after[at], before[at], trend@),
        after[at] == (TrendInfoEntityView {
            memo: trend@.memo,
            status: trend@.status.name(),
            updated_at: after[at].updated_at,
            ..before[at]
        }),
{
    assert(holds_id(before, trend@.id));
    assert(after == before.update(at, after[at]));
}

/// An update shows in the record: after an update that was not refused, the
/// first record with the id of the trend holds the memo of the trend and
/// the name of its status, and where that record becomes a trend again,
/// the trend has that status and that memo. The memo of a trend fits, so
/// all that the record can fail on is its creation date.
pub proof fn lemma_update_shows_in_the_record(
    before: Seq<TrendInfoEntityView>,
    trend: UserTrendInfo,
    after: Seq<TrendInfoEntityView>,
    r: Result<UserTrendInfo, UserTrendInfoRepositoryError>,
    at: int,
    fails: bool,
)
    requires
        trend@.memo_fits(),
        is_update(before, trend, after, r, fails),
        r is Ok,
        is_first_with_id(before, trend@.id, at),
    ensures
        is_first_with_id(after, trend@.id, at),
        after[at].memo == trend@.memo,
        after[at].status == trend@.status.name(),
        match after[at].to_trend() {
            Ok(listed) => listed.status == trend@.status && listed.memo == trend@.memo && listed.id
                == trend@.id,
            Err(error) => error is InvalidDate,
        },
{
    trend@.status.lemma_name_round_trip();
    assert(holds_id(before, trend@.id));
    assert(after == before.update(at, after[at]));
    assert forall|i: int| 0 <= i < at implies (#[trigger] after[i]).id != trend@.id by {
        assert(after[i] == before[i]);
    }
}

/// Saving keeps the ids apart: where no two records had one id before a
/// save, none have after it.
pub proof fn lemma_save_keeps_ids_distinct(
    before: Seq<TrendInfoEntityView>,
    info: SaveNewTrendView,
    after: Seq<TrendInfoEntityView>,
    r: Result<UserTrendInfo, UserTrendInfoRepositoryError>,
    fails: bool,
)
    requires
        is_save(before, info, after, r, fails),
        ids_are_distinct(before),
    ensures
        ids_are_distinct(after),
{
    if after != before {
        assert forall|i: int, j: int| 0 <= i < j < after.len() implies (#[trigger] after[i]).id
            != (#[trigger] after[j]).id by {
            assert(after[i] == after.drop_last()[i]);
            if j < before.len() {
                assert(after[j] == after.drop_last()[j]);
            } else {
                assert(after[j] == after.last());
            }
        }
    }
}

/// Updating keeps the ids apart: where no two records had one id before an
/// update, none have after it.
pub proof fn lemma_update_keeps_ids_distinct(
    before: Seq<TrendInfoEntityView>,
    trend: UserTrendInfo,
    after: Seq<TrendInfoEntityView>,
    r: Result<UserTrendInfo, UserTrendInfoRepositoryError>,
    fails: bool,
)
    requires
        is_update(before, trend, after, r, fails),
        ids_are_distinct(before),
    ensures
        ids_are_distinct(after),
{
    if after != before {
        let at = choose|at: int| 0 <= at < before.len() && (#[trigger] before[at]).id == trend@.id;
        assert(is_first_with_id(before, trend@.id, at));
        assert(after == before.update(at, after[at]));
        assert forall|i: int, j: int| 0 <= i < j < after.len() implies (#[trigger] after[i]).id
            != (#[trigger] after[j]).id by {
            assert(after[i].id == before[i].id);
            assert(after[j].id == before[j].id);
        }
    }
}

/// A store of users' trends. A user has at most one record of a link:
/// `save` sees to that, `update` does not ask.
pub trait UserTrendInfoRepository {
    /// The records that the store holds, in the order in which they were
    /// saved.
    spec fn records(&self) -> Seq<TrendInfoEntityView>;

    /// Whether the store can fail with a `SaveError` for a reason of its
    /// own, such as a connection that is lost. A store in memory cannot.
    /// Saving and updating do not change this.
    spec fn fails_on_its_own(&self) -> bool;

    /// Saves a raw trend for a user.
    fn save(&mut self, user_trend: SaveNewTrendInfo) -> (r: Result<
        UserTrendInfo,
        UserTrendInfoRepositoryError,
    >)
        ensures
            is_save(
                old(self).records(),
                user_trend@,
                final(self).records(),
                r,
                old(self).fails_on_its_own(),
            ),
            final(self).fails_on_its_own() == old(self).fails_on_its_own(),
    ;

    /// Writes memo and status of a trend over its record.
    fn update(&mut self, user_trend: UserTrendInfo) -> (r: Result<
        UserTrendInfo,
        UserTrendInfoRepositoryError,
    >)
        ensures
            is_update(
                old(self).records(),
                user_trend,
                final(self).records(),
                r,
                old(self).fails_on_its_own(),
            ),
            final(self).fails_on_its_own() == old(self).fails_on_its_own(),
    ;

    /// All trends of a user.
    fn list(&self, user_id: UserId) -> (r: Result<Vec<UserTrendInfo>, UserTrendInfoRepositoryError>)
        ensures
            is_list(self.records(), user_id@, r),
            !holds_user(self.records(), user_id@) ==> (r matches Ok(infos) && infos@.len() == 0),
    ;
}

/// Saves a raw trend for a user in `repository`.
pub fn save_new_trend<R: UserTrendInfoRepository>(
    repository: &mut R,
    save_info: SaveNewTrendInfo,
) -> (r: Result<UserTrendInfo, UserTrendInfoRepositoryError>)
    ensures
        is_save(
            old(repository).records(),
            save_info@,
            final(repository).records(),
            r,
            old(repository).fails_on_its_own(),
        ),
        final(repository).fails_on_its_own() == old(repository).fails_on_its_own(),
{
    repository.save(save_info)
}

/// Writes memo and status of a trend over its record in `repository`.
pub fn update_trend<R: UserTrendInfoRepository>(
    repository: &mut R,
    user_trend: UserTrendInfo,
) -> (r: Result<UserTrendInfo, UserTrendInfoRepositoryError>)
    ensures
        is_update(
            old(repository).records(),
            user_trend,
            final(repository).records(),
            r,
            old(repository).fails_on_its_own(),
        ),
        final(repository).fails_on_its_own() == old(repository).fails_on_its_own(),
{
    repository.update(user_trend)
}

/// What a [`SaveNewTrendInfo`] stands for in specifications.
pub struct SaveNewTrendView {
    pub user_id: Seq<char>,
    pub raw_trend: RawTrendView,
    pub memo: Seq<char>,
    pub status: Status,
}

/// A request to save a raw trend for a user, with the user's first memo and
/// status.
#[derive(Debug)]
pub struct SaveNewTrendInfo {
    user_id: UserId,
    raw_trend: RawTrendInfo,
    memo: String,
    status: Status,
}

impl View for SaveNewTrendInfo {
    type V = SaveNewTrendView;

    closed spec fn view(&self) -> SaveNewTrendView {
        SaveNewTrendView {
            user_id: self.user_id@,
            raw_trend: self.raw_trend@,
            memo: self.memo@,
            status: self.status,
        }
    }
}

impl Clone for SaveNewTrendInfo {
    fn clone(&self) -> (copy: Self)
        ensures
            copy == *self,
    {
        Self {
            user_id: self.user_id.clone(),
            raw_trend: self.raw_trend.clone(),
            memo: self.memo.clone(),
            status: self.status,
        }
    }
}

impl SaveNewTrendInfo {
    pub fn user_id(&self) -> (user_id: &UserId)
        ensures
            user_id@ == self@.user_id,
    {
        &self.user_id
    }

    pub fn raw_trend(&self) -> (raw_trend: &RawTrendInfo)
        ensures
            raw_trend@ == self@.raw_trend,
    {
        &self.raw_trend
    }

    pub fn memo(&self) -> (memo: &str)
        ensures
            memo@ == self@.memo,
    {
        self.memo.as_str()
    }

    pub fn status(&self) -> (status: Status)
        ensures
            status == self@.status,
    {
        self.status
    }
}

/// Builds a [`SaveNewTrendInfo`]. Unless they are set, the memo is empty
/// and the status is `New`.
pub struct SaveNewTrendInfoBuilder {
    user_id: UserId,
    raw_trend: RawTrendInfo,
    memo: String,
    status: Status,
}

impl View for SaveNewTrendInfoBuilder {
    type V = SaveNewTrendView;

    closed spec fn view(&self) -> SaveNewTrendView {
        SaveNewTrendView {
            user_id: self.user_id@,
            raw_trend: self.raw_trend@,
            memo: self.memo@,
            status: self.status,
        }
    }
}

impl SaveNewTrendInfoBuilder {
    pub fn new(user_id: UserId, raw_trend: RawTrendInfo) -> (builder: Self)
        ensures
            builder@ == (SaveNewTrendView {
                user_id: user_id@,
                raw_trend: raw_trend@,
                memo: Seq::empty(),
                status: Status::New,
            }),
    {
        Self { user_id, raw_trend, memo: String::new(), status: Status::New }
    }

    pub fn memo(self, memo: &str) -> (builder: Self)
        ensures
            builder@ == (SaveNewTrendView { memo: memo@, ..self@ }),
    {
        Self {
            user_id: self.user_id,
            raw_trend: self.raw_trend,
            memo: memo.to_owned(),
            status: self.status,
        }
    }

    pub fn status(self, status: Status) -> (builder: Self)
        ensures
            builder@ == (SaveNewTrendView { status, ..self@ }),
    {
        Self { user_id: self.user_id, raw_trend: self.raw_trend, memo: self.memo, status }
    }

    pub fn build(self) -> (info: SaveNewTrendInfo)
        ensures
            info@ == self@,
    {
        SaveNewTrendInfo {
            user_id: self.user_id,
            raw_trend: self.raw_trend,
            memo: self.memo,
            status: self.status,
        }
    }
}

} // verus!
