//! Normalisation of the app ids that one AppFS runtime serves.

use vstd::prelude::*;
use crate::text::{trim, trim_to_string, lemma_trim_idempotent};

verus! {

/// Why a set of runtime arguments was refused.
#[derive(Debug, Clone, Copy, PartialEq, Eq, Structural)]
pub enum AppfsArgsError {
    /// An app id is empty once surrounding whitespace is removed.
    EmptyAppId,
    /// Several apps were asked for together with one session id for all of them.
    SharedSessionIdAcrossApps,
}

impl AppfsArgsError {
    /// The human-readable text of the error.
    pub open spec fn spec_message(self) -> Seq<char> {
        match self {
            AppfsArgsError::EmptyAppId => "app id cannot be empty"@,
            AppfsArgsError::SharedSessionIdAcrossApps =>
                "multi-app AppFS runtime does not accept a single shared --session-id; omit it and runtime will generate isolated per-app sessions"@,
        }
    }

    /// The human-readable text of the error.
    pub fn message(&self) -> (m: &'static str)
        ensures
            m@ == self.spec_message(),
    {
        match self {
            AppfsArgsError::EmptyAppId => "app id cannot be empty",
            AppfsArgsError::SharedSessionIdAcrossApps =>
                "multi-app AppFS runtime does not accept a single shared --session-id; omit it and runtime will generate isolated per-app sessions",
        }
    }
}

/// The raw app ids in the order they were given: the primary one first, then the extras.
pub open spec fn app_id_inputs(primary: Option<Seq<char>>, extras: Seq<Seq<char>>) -> Seq<Seq<char>> {
    match primary {
        Some(p) => seq![p] + extras,
        None => extras,
    }
}

/// Each string trimmed.
pub open spec fn trim_all(s: Seq<Seq<char>>) -> Seq<Seq<char>> {
    s.map_values(|x: Seq<char>| trim(x))
}

/// The first occurrence of each distinct element of `s`, in order.
pub open spec fn first_occurrences(s: Seq<Seq<char>>) -> Seq<Seq<char>>
    decreases s.len(),
{
    if s.len() == 0 {
        seq![]
    } else {
        let d = first_occurrences(s.drop_last());
        if d.contains(s.last()) {
            d
        } else {
            d.push(s.last())
        }
    }
}

/// No element occurs twice.
pub open spec fn all_distinct(s: Seq<Seq<char>>) -> bool {
    forall|i: int, j: int| 0 <= i < j < s.len() ==> s[i] != s[j]
}

/// What normalising the app ids gives: an error when some given id is blank once
/// trimmed; otherwise the trimmed ids without repeats in first-seen order; and when no
/// id was given at all, the trimmed default id (refused when blank) or nothing.
pub open spec fn normalized_app_ids(
    primary: Option<Seq<char>>,
    extras: Seq<Seq<char>>,
    default_id: Option<Seq<char>>,
) -> Result<Seq<Seq<char>>, AppfsArgsError> {
    let inputs = app_id_inputs(primary, extras);
    if exists|k: int| 0 <= k < inputs.len() && (#[trigger] trim(inputs[k])).len() == 0 {
        Err(AppfsArgsError::EmptyAppId)
    } else if inputs.len() > 0 {
        Ok(first_occurrences(trim_all(inputs)))
    } else {
        match default_id {
            None => Ok(seq![]),
            Some(d) => if trim(d).len() == 0 {
                Err(AppfsArgsError::EmptyAppId)
            } else {
                Ok(seq![trim(d)])
            },
        }
    }
}

proof fn lemma_contains_push(a: Seq<Seq<char>>, y: Seq<char>, x: Seq<char>)
    ensures
        a.push(y).contains(x) <==> (a.contains(x) || x == y),
{
    let f = a.push(y);
    if f.contains(x) {
        let k = choose|k: int| 0 <= k < f.len() && f[k] == x;
        if k < a.len() {
            assert(a[k] == x);
        }
    }
    if a.contains(x) {
        let k = choose|k: int| 0 <= k < a.len() && a[k] == x;
        assert(f[k] == x);
    }
    if x == y {
        assert(f[f.len() - 1] == x);
    }
}

proof fn lemma_contains_drop_last(s: Seq<Seq<char>>, x: Seq<char>)
    requires
        s.len() > 0,
    ensures
        s.contains(x) <==> (s.drop_last().contains(x) || x == s.last()),
{
    assert(s.drop_last().push(s.last()) =~= s);
    lemma_contains_push(s.drop_last(), s.last(), x);
}

proof fn lemma_first_occurrences_members(s: Seq<Seq<char>>)
    ensures
        all_distinct(first_occurrences(s)),
        forall|x: Seq<char>| first_occurrences(s).contains(x) <==> s.contains(x),
        s.len() > 0 ==> first_occurrences(s).len() > 0,
    decreases s.len(),
{
    if s.len() > 0 {
        let d = s.drop_last();
        let fd = first_occurrences(d);
        lemma_first_occurrences_members(d);
        assert forall|x: Seq<char>| first_occurrences(s).contains(x) <==> s.contains(x) by {
            assert(fd.contains(x) <==> d.contains(x));
            lemma_contains_drop_last(s, x);
            lemma_contains_push(fd, s.last(), x);
        }
        if !fd.contains(s.last()) {
            let f = fd.push(s.last());
            assert forall|i: int, j: int| 0 <= i < j < f.len() implies f[i] != f[j] by {
                if j == f.len() - 1 {
                    assert(fd[i] == f[i]);
                }
            }
        } else {
            assert(first_occurrences(s).len() > 0);
        }
    }
}

proof fn lemma_first_occurrences_of_distinct(s: Seq<Seq<char>>)
    requires
        all_distinct(s),
    ensures
        first_occurrences(s) == s,
    decreases s.len(),
{
    if s.len() > 0 {
        let d = s.drop_last();
        assert(all_distinct(d));
        lemma_first_occurrences_of_distinct(d);
        if d.contains(s.last()) {
            let k = choose|k: int| 0 <= k < d.len() && d[k] == s.last();
            assert(s[k] == s[s.len() - 1]);
        }
        assert(d.push(s.last()) =~= s);
    }
}

/// Trims `raw` and appends it to `ordered` unless it is already there; a blank id is
/// refused and leaves `ordered` as it was.
fn push_unique_app_id(ordered: &mut Vec<String>, raw: &str) -> (r: Result<(), AppfsArgsError>)
    ensures
        trim(raw@).len() == 0 ==> r == Err::<(), AppfsArgsError>(AppfsArgsError::EmptyAppId)
            && final(ordered).deep_view() == old(ordered).deep_view(),
        trim(raw@).len() > 0 ==> r is Ok && final(ordered).deep_view() == (if old(
            ordered,
        ).deep_view().contains(trim(raw@)) {
            old(ordered).deep_view()
        } else {
            old(ordered).deep_view().push(trim(raw@))
        }),
{
    let trimmed = trim_to_string(raw);
    if trimmed.as_str().unicode_len() == 0 {
        return Err(AppfsArgsError::EmptyAppId);
    }
    let ghost before = ordered.deep_view();
    let mut k: usize = 0;
    let mut found = false;
    while k < ordered.len()
        invariant_except_break
            !found,
        invariant
            k <= ordered.len(),
            ordered.deep_view() == before,
            !found ==> forall|m: int| 0 <= m < k ==> before[m] != trimmed@,
        ensures
            found <==> before.contains(trimmed@),
        decreases ordered.len() - k,
    {
        if ordered[k] == trimmed {
            found = true;
            assert(before[k as int] == trimmed@);
            break;
        }
        k = k + 1;
    }
    if !found {
        ordered.push(trimmed);
        assert(ordered.deep_view() =~= before.push(trim(raw@)));
    }
    Ok(())
}

/// Trims each app id, refuses a blank one, drops repeats (the first occurrence stays in
/// place), and falls back to the default id when none was given.
pub fn normalize_appfs_app_ids(
    primary_app_id: Option<String>,
    extra_app_ids: Vec<String>,
    default_app_id: Option<&str>,
) -> (r: Result<Vec<String>, AppfsArgsError>)
    ensures
        match r {
            Ok(ids) => normalized_app_ids(
                primary_app_id.deep_view(),
                extra_app_ids.deep_view(),
                default_app_id.deep_view(),
            ) == Ok::<Seq<Seq<char>>, AppfsArgsError>(ids.deep_view()),
            Err(e) => normalized_app_ids(
                primary_app_id.deep_view(),
                extra_app_ids.deep_view(),
                default_app_id.deep_view(),
            ) == Err::<Seq<Seq<char>>, AppfsArgsError>(e),
        },
        r is Ok <==> no_blank_app_id(
            primary_app_id.deep_view(),
            extra_app_ids.deep_view(),
            default_app_id.deep_view(),
        ),
        r is Err ==> r == Err::<Vec<String>, AppfsArgsError>(AppfsArgsError::EmptyAppId),
{
    let ghost p = primary_app_id.deep_view();
    let ghost e = extra_app_ids.deep_view();
    let ghost inputs = app_id_inputs(p, e);
    let mut ordered: Vec<String> = Vec::new();
    let ghost mut seen: Seq<Seq<char>> = seq![];
    assert(ordered.deep_view() =~= first_occurrences(trim_all(seen)));
    match &primary_app_id {
        Some(primary) => {
            let res = push_unique_app_id(&mut ordered, primary.as_str());
            assert(inputs[0] == primary@);
            if res.is_err() {
                return Err(AppfsArgsError::EmptyAppId);
            }
            proof {
                seen = seq![primary@];
                assert(trim_all(seen).drop_last() =~= trim_all(seq![]));
                assert(ordered.deep_view() =~= first_occurrences(trim_all(seen)));
            }
        },
        None => {},
    }
    let offset: usize = if primary_app_id.is_some() { 1 } else { 0 };
    assert(seen =~= app_id_inputs(p, e.take(0)));
    let n = extra_app_ids.len();
    let mut i: usize = 0;
    while i < n
        invariant
            n == extra_app_ids.len(),
            e == extra_app_ids.deep_view(),
            p == primary_app_id.deep_view(),
            inputs == app_id_inputs(p, e),
            offset == (if p is Some { 1int } else { 0int }),
            i <= n,
            seen == app_id_inputs(p, e.take(i as int)),
            ordered.deep_view() == first_occurrences(trim_all(seen)),
            forall|k: int| 0 <= k < seen.len() ==> (#[trigger] trim(seen[k])).len() > 0,
        decreases n - i,
    {
        let res = push_unique_app_id(&mut ordered, extra_app_ids[i].as_str());
        assert(inputs[offset + i] == e[i as int]);
        if res.is_err() {
            assert(trim(inputs[offset + i]).len() == 0);
            return Err(AppfsArgsError::EmptyAppId);
        }
        proof {
            let next = seen.push(e[i as int]);
            assert(app_id_inputs(p, e.take(i + 1)) =~= next);
            assert(trim_all(next).drop_last() =~= trim_all(seen));
            seen = next;
        }
        i = i + 1;
    }
    assert(e.take(n as int) =~= e);
    assert(seen == inputs);
    if ordered.len() == 0 {
        proof {
            lemma_first_occurrences_members(trim_all(seen));
            assert(trim_all(seen).len() == seen.len());
            assert(inputs.len() == 0);
        }
        match default_app_id {
            Some(d) => {
                let res = push_unique_app_id(&mut ordered, d);
                if res.is_err() {
                    return Err(AppfsArgsError::EmptyAppId);
                }
                assert(ordered.deep_view() =~= seq![trim(d@)]);
            },
            None => {},
        }
    }
    Ok(ordered)
}

/// Laws of a successful normalisation: no id occurs twice, every id is non-empty and
/// already trimmed, and an id is in the result exactly when it is the trimmed form of a
/// given id (or, when none was given, of the default id).
pub proof fn law_normalized_app_ids_are_distinct_and_trimmed(
    primary: Option<Seq<char>>,
    extras: Seq<Seq<char>>,
    default_id: Option<Seq<char>>,
    ids: Seq<Seq<char>>,
)
    requires
        normalized_app_ids(primary, extras, default_id) == Ok::<Seq<Seq<char>>, AppfsArgsError>(ids),
    ensures
        all_distinct(ids),
        forall|k: int| 0 <= k < ids.len() ==> (#[trigger] ids[k]).len() > 0 && trim(ids[k]) == ids[k],
        app_id_inputs(primary, extras).len() > 0 ==> forall|x: Seq<char>|
            ids.contains(x) <==> exists|k: int|
                0 <= k < app_id_inputs(primary, extras).len() && x == #[trigger] trim(
                    app_id_inputs(primary, extras)[k],
                ),
        app_id_inputs(primary, extras).len() == 0 ==> ids == (match default_id {
            Some(d) => seq![trim(d)],
            None => seq![],
        }),
{
    let inputs = app_id_inputs(primary, extras);
    let t = trim_all(inputs);
    if inputs.len() > 0 {
        lemma_first_occurrences_members(t);
        assert(ids == first_occurrences(t));
        assert forall|k: int| 0 <= k < ids.len() implies (#[trigger] ids[k]).len() > 0 && trim(
            ids[k],
        ) == ids[k] by {
            assert(ids.contains(ids[k]));
            assert(t.contains(ids[k]));
            let m = choose|m: int| 0 <= m < t.len() && t[m] == ids[k];
            lemma_trim_idempotent(inputs[m]);
            assert(trim(inputs[m]).len() > 0);
        }
        assert forall|x: Seq<char>| ids.contains(x) <==> exists|k: int|
            0 <= k < inputs.len() && x == #[trigger] trim(inputs[k]) by {
            if ids.contains(x) {
                assert(t.contains(x));
                let m = choose|m: int| 0 <= m < t.len() && t[m] == x;
                assert(x == trim(inputs[m]));
            }
            if exists|k: int| 0 <= k < inputs.len() && x == #[trigger] trim(inputs[k]) {
                let k = choose|k: int| 0 <= k < inputs.len() && x == #[trigger] trim(inputs[k]);
                assert(t[k] == x);
                assert(t.contains(x));
            }
        }
    } else {
        match default_id {
            Some(d) => {
                lemma_trim_idempotent(d);
            },
            None => {},
        }
    }
}

/// Whether every given id, and the default id when it is the one used, is non-blank once
/// trimmed.
pub open spec fn no_blank_app_id(
    primary: Option<Seq<char>>,
    extras: Seq<Seq<char>>,
    default_id: Option<Seq<char>>,
) -> bool {
    let inputs = app_id_inputs(primary, extras);
    &&& forall|k: int| 0 <= k < inputs.len() ==> (#[trigger] trim(inputs[k])).len() > 0
    &&& (inputs.len() == 0 && default_id is Some) ==> trim(default_id->Some_0).len() > 0
}

/// Normalisation refuses exactly when a given id (or, with no id given, the default id)
/// is blank once trimmed, and then always with `EmptyAppId`; however many distinct ids
/// there are, non-blank ones are accepted.
pub proof fn law_normalize_refuses_only_blank_ids(
    primary: Option<Seq<char>>,
    extras: Seq<Seq<char>>,
    default_id: Option<Seq<char>>,
)
    ensures
        normalized_app_ids(primary, extras, default_id) is Ok <==> no_blank_app_id(
            primary,
            extras,
            default_id,
        ),
        normalized_app_ids(primary, extras, default_id) is Err ==> normalized_app_ids(
            primary,
            extras,
            default_id,
        ) == Err::<Seq<Seq<char>>, AppfsArgsError>(AppfsArgsError::EmptyAppId),
{
}

proof fn lemma_first_occurrences_order(s: Seq<Seq<char>>, i: int, j: int)
    requires
        0 <= i < j < first_occurrences(s).len(),
    ensures
        exists|k: int|
            0 <= k < s.len() && s[k] == first_occurrences(s)[i] && forall|m: int|
                0 <= m <= k ==> #[trigger] s[m] != first_occurrences(s)[j],
    decreases s.len(),
{
    let d = s.drop_last();
    let fd = first_occurrences(d);
    let fs = first_occurrences(s);
    let x = s.last();
    lemma_first_occurrences_members(d);
    assert(fs == if fd.contains(x) { fd } else { fd.push(x) });
    assert(fs[i] == fd[i]);
    if j < fd.len() {
        assert(fs[j] == fd[j]);
        lemma_first_occurrences_order(d, i, j);
        let k = choose|k: int|
            0 <= k < d.len() && d[k] == fd[i] && forall|m: int| 0 <= m <= k ==> #[trigger] d[m] != fd[j];
        assert(s[k] == d[k]);
        assert forall|m: int| 0 <= m <= k implies #[trigger] s[m] != fs[j] by {
            assert(s[m] == d[m]);
        }
    } else {
        assert(!fd.contains(x));
        assert(fs[j] == x);
        assert(!d.contains(x));
        assert(fd[i] == fd[i]);
        assert(fd.contains(fd[i]));
        assert(d.contains(fd[i]));
        let k = choose|k: int| 0 <= k < d.len() && d[k] == fd[i];
        assert(s[k] == d[k]);
        assert forall|m: int| 0 <= m <= k implies #[trigger] s[m] != fs[j] by {
            assert(s[m] == d[m]);
            if d[m] == x {
                assert(d.contains(x));
            }
        }
    }
}

/// The normalised ids keep the order in which they were first given: when one id comes
/// before another in the result, it was given (trimmed) before the other was first given.
pub proof fn law_normalized_app_ids_keep_first_seen_order(
    primary: Option<Seq<char>>,
    extras: Seq<Seq<char>>,
    default_id: Option<Seq<char>>,
    ids: Seq<Seq<char>>,
    i: int,
    j: int,
)
    requires
        normalized_app_ids(primary, extras, default_id) == Ok::<Seq<Seq<char>>, AppfsArgsError>(ids),
        app_id_inputs(primary, extras).len() > 0,
        0 <= i < j < ids.len(),
    ensures
        exists|k: int|
            0 <= k < app_id_inputs(primary, extras).len() && trim(app_id_inputs(primary, extras)[k])
                == ids[i] && forall|m: int|
                0 <= m <= k ==> #[trigger] trim(app_id_inputs(primary, extras)[m]) != ids[j],
{
    let inputs = app_id_inputs(primary, extras);
    let t = trim_all(inputs);
    lemma_first_occurrences_order(t, i, j);
    let k = choose|k: int|
        0 <= k < t.len() && t[k] == first_occurrences(t)[i] && forall|m: int|
            0 <= m <= k ==> #[trigger] t[m] != first_occurrences(t)[j];
    assert forall|m: int| 0 <= m <= k implies #[trigger] trim(inputs[m]) != ids[j] by {
        assert(t[m] == trim(inputs[m]));
    }
    assert(trim(inputs[k]) == ids[i]);
}

/// Normalising an already normalised list (given as extra ids, with the same default)
/// gives it back unchanged.
pub proof fn law_normalize_app_ids_idempotent(
    primary: Option<Seq<char>>,
    extras: Seq<Seq<char>>,
    default_id: Option<Seq<char>>,
    ids: Seq<Seq<char>>,
)
    requires
        normalized_app_ids(primary, extras, default_id) == Ok::<Seq<Seq<char>>, AppfsArgsError>(ids),
    ensures
        normalized_app_ids(None, ids, default_id) == Ok::<Seq<Seq<char>>, AppfsArgsError>(ids),
{
    law_normalized_app_ids_are_distinct_and_trimmed(primary, extras, default_id, ids);
    let inputs2 = app_id_inputs(None, ids);
    assert(inputs2 == ids);
    assert(trim_all(ids) =~= ids);
    if ids.len() > 0 {
        lemma_first_occurrences_of_distinct(ids);
    } else {
        let inputs = app_id_inputs(primary, extras);
        if inputs.len() > 0 {
            lemma_first_occurrences_members(trim_all(inputs));
        }
    }
}

} // verus!
