//! A store that keeps its records in memory.

use crate::date::Date;
use crate::domain::{
    byte_len, memo_refusal, Memo, MemoError, UserTrendInfo, UserTrendInfoError,
};
use crate::repository::{InitTrendInfoEntity, TrendInfoEntity, TrendInfoEntityView};
use crate::text::{decimal, decimal_string, lemma_decimal_is_injective, same_text};
use crate::use_case::{
    holds_id, holds_link, holds_user, is_converted, is_first_with_id, is_updated_record,
    lemma_list_without_records, listed, SaveNewTrendInfo, SaveNewTrendView,
    UserTrendInfoRepository, UserTrendInfoRepositoryError,
};
use crate::user::UserId;
use vstd::prelude::*;

verus! {

/// The id that the in-memory store gives to the record that it saves when
/// it holds `count` records.
pub open spec fn id_of_record(count: nat) -> Seq<char> {
    "id-"@ + decimal(count)
}

/// The memo of every record fits a [`Memo`].
pub open spec fn memos_fit(records: Seq<TrendInfoEntityView>) -> bool {
    forall|i: int| 0 <= i < records.len() ==> (#[trigger] records[i]).memo_fits()
}

/// The id of every record tells its place among the records.
pub open spec fn ids_count_up(records: Seq<TrendInfoEntityView>) -> bool {
    forall|i: int| 0 <= i < records.len() ==> (#[trigger] records[i]).id == id_of_record(i as nat)
}

/// Records at different places get different ids.
pub proof fn lemma_ids_differ(a: nat, b: nat)
    requires
        id_of_record(a) == id_of_record(b),
    ensures
        a == b,
{
    let prefix = "id-"@;
    assert((prefix + decimal(a)).skip(prefix.len() as int) =~= decimal(a));
    assert((prefix + decimal(b)).skip(prefix.len() as int) =~= decimal(b));
    lemma_decimal_is_injective(a, b);
}

/// Where the ids count up, the record at a place is the only one with its
/// id.
pub proof fn lemma_id_names_one_record(records: Seq<TrendInfoEntityView>, at: int)
    requires
        ids_count_up(records),
        0 <= at < records.len(),
    ensures
        is_first_with_id(records, records[at].id, at),
        forall|i: int|
            0 <= i < records.len() && (#[trigger] records[i]).id == records[at].id ==> i == at,
{
    assert forall|i: int| 0 <= i < records.len() && (#[trigger] records[i]).id
        == records[at].id implies i == at by {
        lemma_ids_differ(i as nat, at as nat);
    }
}

/// Why the in-memory store does not save a request.
pub enum SaveRefusal {
    /// The user has a record with the link already.
    AlreadySaved,
    /// The memo is too long for a trend.
    MemoTooLong,
}

/// Why the in-memory store does not save the request `info` when it holds
/// `records`, or `None` where it saves it. A link that the user has is
/// found before a memo that is too long.
pub open spec fn save_refusal(records: Seq<TrendInfoEntityView>, info: SaveNewTrendView) -> Option<
    SaveRefusal,
> {
    if holds_link(records, info.user_id, info.raw_trend.link) {
        Some(SaveRefusal::AlreadySaved)
    } else if byte_len(info.memo) > Memo::MAX_LEN {
        Some(SaveRefusal::MemoTooLong)
    } else {
        None
    }
}

/// A store in memory, for one owner at a time. It never fails for a reason
/// of its own. The id of a record is `id-` and the number of records that
/// were there before it; no record ever leaves.
pub struct FakeUserTrendInfoRepository {
    infos: Vec<TrendInfoEntity>,
}

impl FakeUserTrendInfoRepository {
    #[verifier::type_invariant]
    spec fn well_formed(self) -> bool {
        memos_fit(self.infos.deep_view()) && ids_count_up(self.infos.deep_view())
    }

    /// A store without records.
    pub fn new() -> (store: Self)
        ensures
            store.records() == Seq::<TrendInfoEntityView>::empty(),
    {
        let infos: Vec<TrendInfoEntity> = Vec::new();
        assert(infos.deep_view() =~= Seq::empty());
        Self { infos }
    }

    /// Takes the records out of the store, which is left without any until
    /// they are put back.
    fn take_records(&mut self) -> (infos: Vec<TrendInfoEntity>)
        ensures
            infos == old(self).infos,
            final(self).infos@.len() == 0,
    {
        let mut infos: Vec<TrendInfoEntity> = Vec::new();
        assert(infos.deep_view() =~= Seq::empty());
        core::mem::swap(&mut self.infos, &mut infos);
        assert(self.infos.deep_view() =~= Seq::empty());
        infos
    }

    /// Whether the user `user_id` has a record with the link `link`.
    fn has_link(&self, user_id: &UserId, link: &str) -> (found: bool)
        ensures
            found == holds_link(self.records(), user_id@, link@),
    {
        let mut i: usize = 0;
        while i < self.infos.len()
            invariant
                i <= self.infos@.len(),
                forall|k: int|
                    0 <= k < i ==> !((#[trigger] self.records()[k]).user_id == user_id@
                        && self.records()[k].link == link@),
            decreases self.infos@.len() - i,
        {
            let info = &self.infos[i];
            assert(self.records()[i as int] == info@);
            if same_text(info.link.as_str(), link) && user_id.is_same(info.user_id.as_str()) {
                return true;
            }
            i += 1;
        }
        false
    }

    /// The place of the first record with the id `id`.
    fn position_of(&self, id: &str) -> (found: Option<usize>)
        ensures
            match found {
                Some(at) => is_first_with_id(self.records(), id@, at as int),
                None => !holds_id(self.records(), id@),
            },
    {
        let mut i: usize = 0;
        while i < self.infos.len()
            invariant
                i <= self.infos@.len(),
                forall|k: int| 0 <= k < i ==> (#[trigger] self.records()[k]).id != id@,
            decreases self.infos@.len() - i,
        {
            assert(self.records()[i as int] == self.infos@[i as int]@);
            if same_text(self.infos[i].id.as_str(), id) {
                return Some(i);
            }
            i += 1;
        }
        None
    }

    /// Saves a raw trend for a user on the day `today`.
    ///
    /// Where the user has a record with the link of the request, the
    /// request is refused and nothing changes. A request with a memo that
    /// is too long for a trend is refused as well. Else a record of the
    /// request is put behind the others, and the trend that this record
    /// becomes is handed back.
    pub fn save_on(&mut self, user_trend: SaveNewTrendInfo, today: Date) -> (r: Result<
        UserTrendInfo,
        UserTrendInfoRepositoryError,
    >)
        ensures
            memos_fit(final(self).records()),
            ids_count_up(final(self).records()),
            match save_refusal(old(self).records(), user_trend@) {
                Some(SaveRefusal::AlreadySaved) => {
                    &&& final(self).records() == old(self).records()
                    &&& r matches Err(UserTrendInfoRepositoryError::AlreadyExists(text))
                    &&& text@ == "already saved"@
                },
                Some(SaveRefusal::MemoTooLong) => {
                    &&& final(self).records() == old(self).records()
                    &&& r matches Err(UserTrendInfoRepositoryError::SaveError(text))
                    &&& text@ == memo_refusal(user_trend@.memo)
                },
                None => {
                    let saved = user_trend@.saved(
                        id_of_record(old(self).records().len()),
                        today@,
                    );
                    &&& final(self).records() == old(self).records().push(saved)
                    &&& is_converted(r, saved.to_trend())
                },
            },
    {
        proof {
            use_type_invariant(&*self);
        }
        if self.has_link(user_trend.user_id(), user_trend.raw_trend().link()) {
            return Err(UserTrendInfoRepositoryError::AlreadyExists("already saved".to_owned()));
        }
        let len = user_trend.memo().as_bytes().len();
        if len > Memo::MAX_LEN {
            let refused = UserTrendInfoError::InvalidMemo(MemoError::TooLong(len));
            return Err(UserTrendInfoRepositoryError::SaveError(refused.to_string()));
        }
        let ghost before = self.records();
        let entity = InitTrendInfoEntity::new(user_trend);
        let mut id = "id-".to_owned();
        id.append(decimal_string(self.infos.len()).as_str());
        let entity = TrendInfoEntity {
            id,
            user_id: entity.user_id,
            link: entity.link,
            title: entity.title,
            desc: entity.desc,
            memo: entity.memo,
            from: entity.from,
            status: entity.status,
            created_at: today.to_string(),
            updated_at: today.to_string(),
        };
        let record = entity.clone();
        proof {
            assert forall|i: int| 0 <= i < before.len() + 1 implies (#[trigger] before.push(
                entity@,
            )[i]).memo_fits() && before.push(entity@)[i].id == id_of_record(i as nat) by {
                if i < before.len() {
                    assert(before.push(entity@)[i] == before[i]);
                }
            }
        }
        let mut infos = self.take_records();
        infos.push(record);
        assert(infos.deep_view() =~= before.push(entity@));
        self.infos = infos;
        match entity.try_into() {
            Ok(info) => Ok(info),
            Err(e) => Err(UserTrendInfoRepositoryError::ConvertError(e.to_string())),
        }
    }

    /// Writes memo and status of a trend over its record on the day
    /// `today`.
    ///
    /// Where no record has the id of the trend, the update is refused and
    /// nothing changes. Else memo and status of the trend are written over
    /// the record with that id, the record is stamped, and the trend is
    /// handed back as it came.
    pub fn update_on(&mut self, user_trend: UserTrendInfo, today: Date) -> (r: Result<
        UserTrendInfo,
        UserTrendInfoRepositoryError,
    >)
        ensures
            memos_fit(final(self).records()),
            ids_count_up(final(self).records()),
            final(self).records().len() == old(self).records().len(),
            !holds_id(old(self).records(), user_trend@.id) ==> {
                &&& final(self).records() == old(self).records()
                &&& r matches Err(UserTrendInfoRepositoryError::NotFoundError(text))
                &&& text@ == "not found"@
            },
            holds_id(old(self).records(), user_trend@.id) ==> {
                &&& r == Ok::<UserTrendInfo, UserTrendInfoRepositoryError>(user_trend)
                &&& forall|at: int| #[trigger]
                    is_first_with_id(old(self).records(), user_trend@.id, at)
                        ==> final(self).records() == old(self).records().update(
                        at,
                        old(self).records()[at].updated(user_trend@, today@),
                    )
            },
    {
        proof {
            use_type_invariant(&*self);
        }
        let at = match self.position_of(user_trend.id().0.as_str()) {
            Some(at) => at,
            None => {
                return Err(UserTrendInfoRepositoryError::NotFoundError("not found".to_owned()));
            },
        };
        let ghost before = self.records();
        let mut entity = self.infos[at].clone();
        assert(entity@ == before[at as int]);
        entity.memo = user_trend.memo().to_owned();
        entity.status = user_trend.status().to_str().to_owned();
        entity.updated_at = today.to_string();
        proof {
            let after = before.update(at as int, entity@);
            assert forall|i: int| 0 <= i < after.len() implies (#[trigger] after[i]).memo_fits()
                && after[i].id == id_of_record(i as nat) by {
                if i != at {
                    assert(after[i] == before[i]);
                }
            }
            assert forall|other: int| #[trigger]
                is_first_with_id(before, user_trend@.id, other) implies other == at by {}
            assert(holds_id(before, user_trend@.id));
        }
        let mut infos = self.take_records();
        infos.set(at, entity);
        assert(infos.deep_view() =~= before.update(at as int, entity@));
        self.infos = infos;
        Ok(user_trend)
    }
}

impl UserTrendInfoRepository for FakeUserTrendInfoRepository {
    closed spec fn records(&self) -> Seq<TrendInfoEntityView> {
        self.infos.deep_view()
    }

    /// The store in memory has no reason of its own to fail.
    open spec fn fails_on_its_own(&self) -> bool {
        false
    }

    /// Saves a raw trend for a user on the day that it is.
    fn save(&mut self, user_trend: SaveNewTrendInfo) -> (r: Result<
        UserTrendInfo,
        UserTrendInfoRepositoryError,
    >)
        ensures
            memos_fit(final(self).records()),
            ids_count_up(final(self).records()),
    {
        let ghost before = self.records();
        let today = Date::now();
        let r = self.save_on(user_trend, today);
        proof {
            if save_refusal(before, user_trend@) is None {
                let saved = user_trend@.saved(id_of_record(before.len()), today@);
                assert(self.records().last() == saved);
                assert(self.records().drop_last() =~= before);
                assert forall|i: int| 0 <= i < before.len() implies (#[trigger] before[i]).id
                    != saved.id by {
                    assert(before[i] == self.records()[i]);
                    if before[i].id == saved.id {
                        lemma_ids_differ(i as nat, before.len());
                    }
                }
            }
        }
        r
    }

    /// Writes memo and status of a trend over its record on the day that
    /// it is.
    fn update(&mut self, user_trend: UserTrendInfo) -> (r: Result<
        UserTrendInfo,
        UserTrendInfoRepositoryError,
    >)
        ensures
            memos_fit(final(self).records()),
            ids_count_up(final(self).records()),
    {
        let ghost before = self.records();
        let today = Date::now();
        let r = self.update_on(user_trend, today);
        proof {
            let after = self.records();
            assert forall|at: int| #[trigger]
                is_first_with_id(before, user_trend@.id, at) implies after == before.update(
                at,
                after[at],
            ) && is_updated_record(after[at], before[at], user_trend@) by {
                assert(after[at] == before[at].updated(user_trend@, today@));
            }
        }
        r
    }

    fn list(&self, user_id: UserId) -> (r: Result<Vec<UserTrendInfo>, UserTrendInfoRepositoryError>)
    {
        proof {
            use_type_invariant(self);
        }
        let mut trends: Vec<UserTrendInfo> = Vec::new();
        let mut i: usize = 0;
        assert(self.records().take(0) =~= Seq::empty());
        assert(trends.deep_view() =~= Seq::empty());
        while i < self.infos.len()
            invariant
                i <= self.infos@.len(),
                memos_fit(self.records()),
                listed(self.records().take(i as int), user_id@) matches Ok(listed_trends)
                    && listed_trends == trends.deep_view(),
            decreases self.infos@.len() - i,
        {
            let ghost done = self.records().take(i as int);
            let ghost next = self.records().take(i + 1);
            let ghost before = trends.deep_view();
            let info = &self.infos[i];
            proof {
                assert(next.drop_last() =~= done);
                assert(next.last() == info@);
                assert(self.records()[i as int] == info@);
            }
            if user_id.is_same(info.user_id.as_str()) {
                match info.clone().try_into() {
                    Ok(trend) => {
                        trends.push(trend);
                        assert(trends.deep_view() =~= before.push(trend@));
                    },
                    Err(e) => {
                        proof {
                            lemma_listed_fails_on(self.records(), user_id@, i as int);
                        }
                        return Err(UserTrendInfoRepositoryError::ConvertError(e.to_string()));
                    },
                }
            }
            i += 1;
        }
        proof {
            assert(self.records().take(i as int) =~= self.records());
            if !holds_user(self.records(), user_id@) {
                lemma_list_without_records(self.records(), user_id@);
            }
        }
        Ok(trends)
    }
}

/// Once the records up to `at` have failed to list, all of them fail so.
pub proof fn lemma_listed_fails_on(records: Seq<TrendInfoEntityView>, user_id: Seq<char>, at: int)
    requires
        0 <= at < records.len(),
        listed(records.take(at + 1), user_id) is Err,
    ensures
        listed(records, user_id) == listed(records.take(at + 1), user_id),
    decreases records.len(),
{
    if at + 1 == records.len() {
        assert(records.take(at + 1) =~= records);
    } else {
        assert(records.drop_last().take(at + 1) =~= records.take(at + 1));
        lemma_listed_fails_on(records.drop_last(), user_id, at);
    }
}

} // verus!
