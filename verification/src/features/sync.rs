//! The full data load: which request comes next, given what the previous
//! one brought, from the user's profile to the class, the current week, its
//! lessons and neighbours, the bells, the timetable and the teachers.
//!
//! The caller performs each request and hands the reply back; the load
//! itself never waits or reads the clock.
use vstd::prelude::*;
use crate::api::endpoints::{
    bells, bells_path, classes, classes_path, lessons, lessons_path, subjects, subjects_path,
    timetable, timetable_path, AUTH_ME, SCHOOL_YEAR, WEEK_ACTIVITIES,
};
use crate::api::entities::{Class, UserInfo, WeekActivity};
use crate::features::diary::{
    covers, current_week_index, first_class_id, neighbour_weeks, neighbours, school_year_range,
    settle_class_id,
};
use crate::text::{chars_of, has_prefix, owned, zero_padded};

verus! {

/// Where a load stands: the request it waits for the reply to.
#[derive(Debug, Clone, Copy, PartialEq, Eq, Structural)]
pub enum LoadStep {
    /// The user's profile.
    Profile,
    /// The renewal of an expired token.
    Renewal,
    /// The profile again, with the renewed token.
    ProfileRetry,
    /// The current school year.
    SchoolYear,
    /// The classes of the school year (`POST`).
    ClassesByDate,
    /// The classes of the student (`GET`, when the first search found none).
    ClassList,
    /// The weeks of the year.
    Weeks,
    /// The lessons of the current week.
    Lessons,
    /// The lessons of the weeks around it.
    Neighbours,
    /// The bell schedule.
    Bells,
    /// The timetable.
    Timetable,
    /// The subjects with their teachers.
    Subjects,
    /// All loaded.
    Done,
    /// Stopped on an error.
    Failed,
}

/// A load in progress.
pub struct DataLoad {
    pub step: LoadStep,
    pub school_id: String,
    pub profile_id: String,
    /// The class settled on (empty before).
    pub class_id: String,
    /// The class id kept from an earlier session, the last resort.
    pub stored_class_id: String,
    /// The calendar year the school year starts in.
    pub year: u32,
    /// The ids of the weeks of the year, once known.
    pub week_uuids: Vec<String>,
    /// The index of the current week, once known.
    pub week: usize,
    /// A background load (the application's) renews an expired token and
    /// fetches the weeks around the current one; a synchronous load (the
    /// desktop state's) does neither.
    pub background: bool,
}

/// The reply to the request a load waits for.
#[derive(Debug)]
pub enum LoadReply {
    /// The profile, or the error text of its request (`HTTP 401 …` where the
    /// token has expired).
    Profile(Result<UserInfo, String>),
    /// Whether the token could be renewed.
    Renewed(bool),
    /// The school year's id; `None` where the request failed.
    SchoolYear(Option<String>),
    /// The classes found; `None` where the request failed.
    Classes(Option<Vec<Class>>),
    /// The weeks of the year (`None` where the request failed) and the time
    /// now, in epoch milliseconds.
    Weeks(Option<Vec<WeekActivity>>, u64),
    /// Whether the current week's lessons came and could be read.
    Lessons(bool),
    /// A reply whose content is shown as it is; the load goes on whatever it
    /// held.
    Answered,
}

/// What the caller does next.
#[derive(Debug, Clone)]
pub enum LoadAction {
    /// `GET` this path.
    Get(String),
    /// `POST` the class search: the school year's id and the date range.
    PostClasses { path: String, school_period: Option<String>, from: String, to: String },
    /// Renew the token.
    Renew,
    /// The week at `index` is the current one: show it and `GET` its
    /// lessons at `path`.
    FetchWeek { index: usize, path: String },
    /// `GET` the lessons of these neighbouring weeks, by index and path, and
    /// cache what comes.
    Prefetch(Vec<(i32, String)>),
    /// Stop and show `message`; with `log_out`, the session is over too.
    Fail { message: String, log_out: bool },
    /// Everything is loaded.
    Finish,
}

/// The order of the steps.
pub open spec fn step_rank(s: LoadStep) -> nat {
    match s {
        LoadStep::Profile => 0,
        LoadStep::Renewal => 1,
        LoadStep::ProfileRetry => 2,
        LoadStep::SchoolYear => 3,
        LoadStep::ClassesByDate => 4,
        LoadStep::ClassList => 5,
        LoadStep::Weeks => 6,
        LoadStep::Lessons => 7,
        LoadStep::Neighbours => 8,
        LoadStep::Bells => 9,
        LoadStep::Timetable => 10,
        LoadStep::Subjects => 11,
        LoadStep::Done => 12,
        LoadStep::Failed => 13,
    }
}

/// Whether a reply is of the kind the step waits for.
pub open spec fn reply_fits(s: LoadStep, r: LoadReply) -> bool {
    match s {
        LoadStep::Profile | LoadStep::ProfileRetry => r is Profile,
        LoadStep::Renewal => r is Renewed,
        LoadStep::SchoolYear => r is SchoolYear,
        LoadStep::ClassesByDate | LoadStep::ClassList => r is Classes,
        LoadStep::Weeks => match r {
            LoadReply::Weeks(Some(ws), _) => ws@.len() < i32::MAX,
            LoadReply::Weeks(None, _) => true,
            _ => false,
        },
        LoadStep::Lessons => r is Lessons,
        LoadStep::Neighbours | LoadStep::Bells | LoadStep::Timetable | LoadStep::Subjects => r is Answered,
        LoadStep::Done | LoadStep::Failed => false,
    }
}

/// The message shown when the profile cannot be read.
pub open spec fn auth_error(e: Seq<char>) -> Seq<char> {
    "Auth error: "@ + e
}

/// The message shown when the token has expired and cannot be renewed.
pub open spec fn expired_message() -> Seq<char> {
    "Сессия истекла. Войдите снова."@
}

/// The message shown when no class can be settled on.
pub open spec fn no_class_message() -> Seq<char> {
    "Class not found — try opening diary.e-schools.by to sync"@
}

/// Whether the action is a `GET` of `path`.
pub open spec fn gets(a: LoadAction, path: Seq<char>) -> bool {
    a matches LoadAction::Get(p) && p@ == path
}

/// Whether the action stops the load with `msg`.
pub open spec fn stops(a: LoadAction, msg: Seq<char>, log_out: bool) -> bool {
    a matches LoadAction::Fail { message, log_out: l } && message@ == msg && l == log_out
}

/// The weeks' ids.
pub open spec fn week_ids(ws: Seq<WeekActivity>) -> Seq<Seq<char>> {
    ws.map_values(|w: WeekActivity| w.uuid@)
}

/// The ids held as texts.
pub open spec fn id_texts(v: Seq<String>) -> Seq<Seq<char>> {
    v.map_values(|s: String| s@)
}

/// The prefetch list for the weeks around `idx`: each neighbour's index and
/// the path of its lessons.
pub open spec fn prefetch_list(l: DataLoad, idx: int) -> Seq<(int, Seq<char>)> {
    neighbours(idx, l.week_uuids@.len() as int).map_values(
        |i: int| (i, lessons_path(l.school_id@, l.class_id@, l.profile_id@, l.week_uuids@[i]@)),
    )
}

/// The view of a prefetch list.
pub open spec fn prefetch_view(v: Seq<(i32, String)>) -> Seq<(int, Seq<char>)> {
    v.map_values(|p: (i32, String)| (p.0 as int, p.1@))
}

/// `next` is `l` moved to `step`, all else kept.
pub open spec fn moved(l: DataLoad, next: DataLoad, step: LoadStep) -> bool {
    &&& next.step == step
    &&& next.school_id@ == l.school_id@
    &&& next.profile_id@ == l.profile_id@
    &&& next.class_id@ == l.class_id@
    &&& next.stored_class_id@ == l.stored_class_id@
    &&& next.year == l.year
    &&& id_texts(next.week_uuids@) == id_texts(l.week_uuids@)
    &&& next.week == l.week
    &&& next.background == l.background
}

/// What settling on a class does: the id found (or the stored one) becomes
/// the class and the weeks are asked for; with no id at all the load stops.
pub open spec fn settles(l: DataLoad, found: Option<Seq<char>>, next: DataLoad, a: LoadAction) -> bool {
    let id = match found {
        Some(f) => f,
        None => l.stored_class_id@,
    };
    if id.len() > 0 {
        &&& next.step == LoadStep::Weeks
        &&& next.class_id@ == id
        &&& next.school_id@ == l.school_id@
        &&& next.profile_id@ == l.profile_id@
        &&& next.year == l.year
        &&& next.background == l.background
        &&& gets(a, WEEK_ACTIVITIES@)
    } else {
        next.step == LoadStep::Failed && stops(a, no_class_message(), false)
    }
}

/// The first class's id, if any class was found.
pub open spec fn first_id(cs: Option<Vec<Class>>) -> Option<Seq<char>> {
    match cs {
        Some(v) => if v@.len() > 0 {
            Some(v@[0].uuid@)
        } else {
            None
        },
        None => None,
    }
}

/// One step of a load: from `l`, on `reply`, to `next`, doing `a`.
pub open spec fn load_advances(l: DataLoad, reply: LoadReply, next: DataLoad, a: LoadAction) -> bool {
    match (l.step, reply) {
        (LoadStep::Profile, LoadReply::Profile(Ok(u))) | (
            LoadStep::ProfileRetry,
            LoadReply::Profile(Ok(u)),
        ) => {
            &&& next.step == LoadStep::SchoolYear
            &&& next.school_id@ == u.school_id@
            &&& next.profile_id@ == u.profile_id@
            &&& next.stored_class_id@ == l.stored_class_id@
            &&& next.year == l.year
            &&& next.background == l.background
            &&& gets(a, SCHOOL_YEAR@)
        },
        (LoadStep::Profile, LoadReply::Profile(Err(e))) => if l.background && e@.len() >= 8
            && e@.subrange(0, 8) == "HTTP 401"@ {
            moved(l, next, LoadStep::Renewal) && a is Renew
        } else {
            next.step == LoadStep::Failed && stops(a, auth_error(e@), false)
        },
        (LoadStep::ProfileRetry, LoadReply::Profile(Err(e))) => next.step == LoadStep::Failed
            && stops(a, auth_error(e@), false),
        (LoadStep::Renewal, LoadReply::Renewed(ok)) => if ok {
            moved(l, next, LoadStep::ProfileRetry) && gets(a, AUTH_ME@)
        } else {
            next.step == LoadStep::Failed && stops(a, expired_message(), true)
        },
        (LoadStep::SchoolYear, LoadReply::SchoolYear(p)) => {
            &&& moved(l, next, LoadStep::ClassesByDate)
            &&& a matches LoadAction::PostClasses { path, school_period, from, to }
            &&& path@ == classes_path(l.school_id@, l.profile_id@)
            &&& match (school_period, p) {
                (Some(x), Some(y)) => x@ == y@,
                (None, None) => true,
                _ => false,
            }
            &&& from@ == "01.09."@ + zero_padded(l.year as nat, 4)
            &&& to@ == "31.05."@ + zero_padded((l.year + 1) as nat, 4)
        },
        (LoadStep::ClassesByDate, LoadReply::Classes(cs)) => match first_id(cs) {
            Some(id) => settles(l, Some(id), next, a),
            None => moved(l, next, LoadStep::ClassList) && gets(
                a,
                classes_path(l.school_id@, l.profile_id@),
            ),
        },
        (LoadStep::ClassList, LoadReply::Classes(cs)) => settles(l, first_id(cs), next, a),
        (LoadStep::Weeks, LoadReply::Weeks(Some(ws), now)) => {
            &&& next.school_id@ == l.school_id@
            &&& next.profile_id@ == l.profile_id@
            &&& next.class_id@ == l.class_id@
            &&& next.year == l.year
            &&& next.background == l.background
            &&& id_texts(next.week_uuids@) == week_ids(ws@)
            &&& if exists|i: int| 0 <= i < ws@.len() && covers(#[trigger] ws@[i], now) {
                &&& next.step == LoadStep::Lessons
                &&& next.week < ws@.len()
                &&& covers(ws@[next.week as int], now)
                &&& forall|j: int| 0 <= j < next.week ==> !covers(#[trigger] ws@[j], now)
                &&& a matches LoadAction::FetchWeek { index, path }
                &&& index == next.week
                &&& path@ == lessons_path(
                    l.school_id@,
                    l.class_id@,
                    l.profile_id@,
                    ws@[next.week as int].uuid@,
                )
            } else {
                next.step == LoadStep::Bells && gets(a, bells_path(l.school_id@))
            }
        },
        (LoadStep::Weeks, LoadReply::Weeks(None, _)) => moved(l, next, LoadStep::Bells) && gets(
            a,
            bells_path(l.school_id@),
        ),
        (LoadStep::Lessons, LoadReply::Lessons(ok)) => if ok && l.background {
            &&& moved(l, next, LoadStep::Neighbours)
            &&& a matches LoadAction::Prefetch(v)
            &&& prefetch_view(v@) == prefetch_list(l, l.week as int)
        } else {
            moved(l, next, LoadStep::Bells) && gets(a, bells_path(l.school_id@))
        },
        (LoadStep::Neighbours, LoadReply::Answered) => moved(l, next, LoadStep::Bells) && gets(
            a,
            bells_path(l.school_id@),
        ),
        (LoadStep::Bells, LoadReply::Answered) => moved(l, next, LoadStep::Timetable) && gets(
            a,
            timetable_path(l.school_id@, l.class_id@),
        ),
        (LoadStep::Timetable, LoadReply::Answered) => moved(l, next, LoadStep::Subjects) && gets(
            a,
            subjects_path(l.school_id@, l.profile_id@, l.class_id@),
        ),
        (LoadStep::Subjects, LoadReply::Answered) => moved(l, next, LoadStep::Done)
            && a is Finish,
        _ => false,
    }
}

impl DataLoad {
    /// What holds of a load at every step.
    pub open spec fn wf(self) -> bool {
        &&& self.year < u32::MAX
        &&& step_rank(self.step) >= 6 && self.step != LoadStep::Failed ==> self.class_id@.len() > 0
        &&& (self.step == LoadStep::Lessons || self.step == LoadStep::Neighbours) ==> (self.week
            < self.week_uuids@.len() && self.week_uuids@.len() < i32::MAX)
    }

    /// Starts a load: the profile is asked for first.
    pub fn start(stored_class_id: String, year: u32, background: bool) -> (res: (DataLoad, LoadAction))
        requires
            year < u32::MAX,
        ensures
            res.0.wf(),
            res.0.background == background,
            res.0.step == LoadStep::Profile,
            res.0.stored_class_id@ == stored_class_id@,
            res.0.year == year,
            gets(res.1, AUTH_ME@),
    {
        let l = DataLoad {
            step: LoadStep::Profile,
            school_id: String::new(),
            profile_id: String::new(),
            class_id: String::new(),
            stored_class_id,
            year,
            week_uuids: Vec::new(),
            week: 0,
            background,
        };
        (l, LoadAction::Get(owned(AUTH_ME)))
    }

    fn moved_to(self, step: LoadStep) -> (next: DataLoad)
        ensures
            moved(self, next, step),
            next.week_uuids@ == self.week_uuids@,
    {
        DataLoad { step, ..self }
    }

    fn settle(self, found: Option<String>) -> (res: (DataLoad, LoadAction))
        requires
            self.wf(),
        ensures
            res.0.wf(),
            settles(self, match found {
                Some(f) => Some(f@),
                None => None,
            }, res.0, res.1),
    {
        let stored = self.stored_class_id.clone();
        match settle_class_id(found, stored) {
            Ok(id) => {
                let next = DataLoad { step: LoadStep::Weeks, class_id: id, ..self };
                (next, LoadAction::Get(owned(WEEK_ACTIVITIES)))
            },
            Err(m) => {
                let next = DataLoad { step: LoadStep::Failed, ..self };
                (next, LoadAction::Fail { message: m, log_out: false })
            },
        }
    }

    /// Takes the reply to the pending request: the next state of the load
    /// and what to do.
    pub fn advance(self, reply: LoadReply) -> (res: (DataLoad, LoadAction))
        requires
            self.wf(),
            reply_fits(self.step, reply),
        ensures
            res.0.wf(),
            load_advances(self, reply, res.0, res.1),
    {
        match (self.step, reply) {
            (LoadStep::Profile, LoadReply::Profile(Ok(u))) | (
                LoadStep::ProfileRetry,
                LoadReply::Profile(Ok(u)),
            ) => {
                let next = DataLoad {
                    step: LoadStep::SchoolYear,
                    school_id: u.school_id,
                    profile_id: u.profile_id,
                    ..self
                };
                (next, LoadAction::Get(owned(SCHOOL_YEAR)))
            },
            (LoadStep::Profile, LoadReply::Profile(Err(e))) => {
                let ec = chars_of(e.as_str());
                let p = chars_of("HTTP 401");
                proof {
                    reveal_strlit("HTTP 401");
                }
                if self.background && has_prefix(ec.as_slice(), p.as_slice()) {
                    (self.moved_to(LoadStep::Renewal), LoadAction::Renew)
                } else {
                    let mut m = owned("Auth error: ");
                    m.append(e.as_str());
                    (
                        self.moved_to(LoadStep::Failed),
                        LoadAction::Fail { message: m, log_out: false },
                    )
                }
            },
            (LoadStep::ProfileRetry, LoadReply::Profile(Err(e))) => {
                let mut m = owned("Auth error: ");
                m.append(e.as_str());
                (self.moved_to(LoadStep::Failed), LoadAction::Fail { message: m, log_out: false })
            },
            (LoadStep::Renewal, LoadReply::Renewed(ok)) => {
                if ok {
                    (self.moved_to(LoadStep::ProfileRetry), LoadAction::Get(owned(AUTH_ME)))
                } else {
                    (
                        self.moved_to(LoadStep::Failed),
                        LoadAction::Fail {
                            message: owned("Сессия истекла. Войдите снова."),
                            log_out: true,
                        },
                    )
                }
            },
            (LoadStep::SchoolYear, LoadReply::SchoolYear(p)) => {
                let path = classes(self.school_id.as_str(), self.profile_id.as_str());
                let (from, to) = school_year_range(self.year);
                (
                    self.moved_to(LoadStep::ClassesByDate),
                    LoadAction::PostClasses { path, school_period: p, from, to },
                )
            },
            (LoadStep::ClassesByDate, LoadReply::Classes(cs)) => {
                let found = match &cs {
                    Some(v) => first_class_id(v),
                    None => None,
                };
                match found {
                    Some(id) => self.settle(Some(id)),
                    None => {
                        let path = classes(self.school_id.as_str(), self.profile_id.as_str());
                        (self.moved_to(LoadStep::ClassList), LoadAction::Get(path))
                    },
                }
            },
            (LoadStep::ClassList, LoadReply::Classes(cs)) => {
                let found = match &cs {
                    Some(v) => first_class_id(v),
                    None => None,
                };
                self.settle(found)
            },
            (LoadStep::Weeks, LoadReply::Weeks(Some(ws), now)) => {
                let mut ids: Vec<String> = Vec::new();
                let mut k: usize = 0;
                while k < ws.len()
                    invariant
                        k <= ws@.len(),
                        id_texts(ids@) == week_ids(ws@.take(k as int)),
                    decreases ws@.len() - k,
                {
                    let ghost before = ids@;
                    let u = ws[k].uuid.clone();
                    assert(u@ == ws@[k as int].uuid@);
                    ids.push(u);
                    proof {
                        assert(ids@ == before.push(u));
                        assert(ws@.take(k + 1) =~= ws@.take(k as int).push(ws@[k as int]));
                        assert(id_texts(ids@) =~= id_texts(before).push(u@));
                        assert(week_ids(ws@.take(k + 1)) =~= week_ids(ws@.take(k as int)).push(
                            ws@[k as int].uuid@,
                        ));
                    }
                    k = k + 1;
                }
                assert(ws@.take(k as int) =~= ws@);
                assert(id_texts(ids@).len() == ids@.len());
                assert(ids@.len() == ws@.len());
                match current_week_index(&ws, now) {
                    Some(i) => {
                        let path = lessons(
                            self.school_id.as_str(),
                            self.class_id.as_str(),
                            self.profile_id.as_str(),
                            ws[i].uuid.as_str(),
                        );
                        let next = DataLoad {
                            step: LoadStep::Lessons,
                            week_uuids: ids,
                            week: i,
                            ..self
                        };
                        (next, LoadAction::FetchWeek { index: i, path })
                    },
                    None => {
                        let path = bells(self.school_id.as_str());
                        let next = DataLoad { step: LoadStep::Bells, week_uuids: ids, ..self };
                        (next, LoadAction::Get(path))
                    },
                }
            },
            (LoadStep::Weeks, LoadReply::Weeks(None, _)) => {
                let path = bells(self.school_id.as_str());
                (self.moved_to(LoadStep::Bells), LoadAction::Get(path))
            },
            (LoadStep::Lessons, LoadReply::Lessons(ok)) => {
                if ok && self.background {
                    let around = neighbour_weeks(self.week, self.week_uuids.len());
                    let mut list: Vec<(i32, String)> = Vec::new();
                    let mut k: usize = 0;
                    let ghost want = prefetch_list(self, self.week as int);
                    assert(around@.map_values(|i: i32| i as int).len() == around@.len());
                    while k < around.len()
                        invariant
                            k <= around@.len(),
                            around@.map_values(|i: i32| i as int) == neighbours(
                                self.week as int,
                                self.week_uuids@.len() as int,
                            ),
                            want == prefetch_list(self, self.week as int),
                            prefetch_view(list@) == want.take(k as int),
                        decreases around@.len() - k,
                    {
                        let i = around[k];
                        proof {
                            assert(around@.map_values(|i: i32| i as int)[k as int] == i as int);
                            assert(neighbours(self.week as int, self.week_uuids@.len() as int).contains(i as int));
                        }
                        let path = lessons(
                            self.school_id.as_str(),
                            self.class_id.as_str(),
                            self.profile_id.as_str(),
                            self.week_uuids[i as usize].as_str(),
                        );
                        let ghost before = list@;
                        list.push((i, path));
                        proof {
                            assert(want[k as int] == (i as int, path@));
                            assert(want.take(k + 1) =~= want.take(k as int).push(want[k as int]));
                            assert(prefetch_view(list@) =~= prefetch_view(before).push((i as int, path@)));
                        }
                        k = k + 1;
                    }
                    assert(want.take(k as int) =~= want);
                    (self.moved_to(LoadStep::Neighbours), LoadAction::Prefetch(list))
                } else {
                    let path = bells(self.school_id.as_str());
                    (self.moved_to(LoadStep::Bells), LoadAction::Get(path))
                }
            },
            (LoadStep::Neighbours, LoadReply::Answered) => {
                let path = bells(self.school_id.as_str());
                (self.moved_to(LoadStep::Bells), LoadAction::Get(path))
            },
            (LoadStep::Bells, LoadReply::Answered) => {
                let path = timetable(self.school_id.as_str(), self.class_id.as_str());
                (self.moved_to(LoadStep::Timetable), LoadAction::Get(path))
            },
            (LoadStep::Timetable, LoadReply::Answered) => {
                let path = subjects(
                    self.school_id.as_str(),
                    self.profile_id.as_str(),
                    self.class_id.as_str(),
                );
                (self.moved_to(LoadStep::Subjects), LoadAction::Get(path))
            },
            (LoadStep::Subjects, LoadReply::Answered) => {
                (self.moved_to(LoadStep::Done), LoadAction::Finish)
            },
            _ => {
                assert(false);
                (self.moved_to(LoadStep::Failed), LoadAction::Finish)
            },
        }
    }
}

/// Every reply moves a load forward: no step is ever waited for twice, so a
/// load ends after at most as many replies as there are steps.
pub proof fn law_load_moves_forward(l: DataLoad, r: LoadReply, next: DataLoad, a: LoadAction)
    requires
        load_advances(l, r, next, a),
    ensures
        step_rank(next.step) > step_rank(l.step),
{
}

/// The session is ended only where an expired token could not be renewed.
pub proof fn law_logout_only_when_renewal_refused(l: DataLoad, r: LoadReply, next: DataLoad, a: LoadAction)
    requires
        load_advances(l, r, next, a),
        a matches LoadAction::Fail { log_out, .. } && log_out,
    ensures
        l.step == LoadStep::Renewal,
        r matches LoadReply::Renewed(ok) && !ok,
{
}

/// A load finishes only once the last request, the teachers, is answered.
pub proof fn law_finish_only_after_subjects(l: DataLoad, r: LoadReply, next: DataLoad, a: LoadAction)
    requires
        load_advances(l, r, next, a),
        a is Finish,
    ensures
        l.step == LoadStep::Subjects,
        next.step == LoadStep::Done,
{
}

/// No request about the class (its weeks, lessons, timetable, teachers) is
/// made before a class has been settled on.
pub proof fn law_class_settled_first(l: DataLoad, r: LoadReply, next: DataLoad, a: LoadAction)
    requires
        l.wf(),
        load_advances(l, r, next, a),
        step_rank(next.step) >= 6,
        next.step != LoadStep::Failed,
    ensures
        next.class_id@.len() > 0,
{
}

} // verus!
