//! Catalog building: drop system-owned applications, then keep the first
//! record of each name in discovery order.
use vstd::prelude::*;

use crate::apps::AppReference;
use crate::icon::{icon_payload, text_option};

verus! {

/// The marker segment whose presence in a bundle path makes an application
/// system-owned ("System", case-sensitive).
pub open spec fn system_marker() -> Seq<char> {
    seq!['S', 'y', 's', 't', 'e', 'm']
}

/// `p` occurs in `s` as a contiguous run.
pub open spec fn has_infix(s: Seq<char>, p: Seq<char>) -> bool {
    exists|i: int| 0 <= i && i + p.len() <= s.len() && #[trigger] s.subrange(i, i + p.len()) == p
}

/// A bundle path under a system-reserved location.
pub open spec fn is_system_path(path: Seq<char>) -> bool {
    has_infix(path, system_marker())
}

/// The records of `s` that are not system-owned, in order.
pub open spec fn user_apps(s: Seq<AppReference>) -> Seq<AppReference>
    decreases s.len(),
{
    if s.len() == 0 {
        Seq::empty()
    } else {
        let rest = user_apps(s.drop_last());
        if is_system_path(s.last().path@) {
            rest
        } else {
            rest.push(s.last())
        }
    }
}

/// Some record of `s` carries the name `n`.
pub open spec fn has_name(s: Seq<AppReference>, n: Seq<char>) -> bool {
    exists|k: int| 0 <= k < s.len() && #[trigger] s[k].name@ == n
}

/// The first record of each name, in order of first appearance.
pub open spec fn first_by_name(s: Seq<AppReference>) -> Seq<AppReference>
    decreases s.len(),
{
    if s.len() == 0 {
        Seq::empty()
    } else {
        let rest = first_by_name(s.drop_last());
        if has_name(rest, s.last().name@) {
            rest
        } else {
            rest.push(s.last())
        }
    }
}

/// The catalog built from a discovery listing: filtered, then deduplicated.
pub open spec fn catalog_of(s: Seq<AppReference>) -> Seq<AppReference> {
    first_by_name(user_apps(s))
}

/// The records that a sequence of references points to.
pub open spec fn deref_seq(s: Seq<&AppReference>) -> Seq<AppReference> {
    s.map_values(|x: &AppReference| *x)
}

/// Relies on str::contains with a string pattern: true exactly when the
/// pattern occurs in the text.
#[verifier::external_body]
fn str_contains(s: &str, pat: &str) -> (r: bool)
    ensures
        r == has_infix(s@, pat@),
{
    s.contains(pat)
}

/// Whether a bundle path lies under a system-reserved location.
pub fn is_system_app(path: &String) -> (r: bool)
    ensures
        r == is_system_path(path@),
{
    proof {
        reveal_strlit("System");
        assert("System"@ =~= system_marker());
    }
    str_contains(path.as_str(), "System")
}

/// The records whose bundle path is not system-owned, in their order.
pub fn filter_system_apps<'a>(apps: &'a Vec<AppReference>) -> (r: Vec<&'a AppReference>)
    ensures
        deref_seq(r@) == user_apps(apps@),
{
    let mut r: Vec<&'a AppReference> = Vec::new();
    let mut i: usize = 0;
    while i < apps.len()
        invariant
            i <= apps.len(),
            deref_seq(r@) == user_apps(apps@.subrange(0, i as int)),
        decreases apps.len() - i,
    {
        let app = &apps[i];
        proof {
            assert(apps@.subrange(0, i + 1).drop_last() =~= apps@.subrange(0, i as int));
        }
        if !is_system_app(&app.path) {
            proof {
                assert(deref_seq(r@.push(app)) =~= deref_seq(r@).push(*app));
            }
            r.push(app);
        }
        i = i + 1;
    }
    assert(apps@.subrange(0, apps@.len() as int) =~= apps@);
    r
}

/// Whether some record in `acc` has the given name.
fn name_seen(acc: &Vec<&AppReference>, name: &String) -> (r: bool)
    ensures
        r == has_name(deref_seq(acc@), name@),
{
    let mut j: usize = 0;
    while j < acc.len()
        invariant
            j <= acc.len(),
            forall|k: int| 0 <= k < j ==> deref_seq(acc@)[k].name@ != name@,
        decreases acc.len() - j,
    {
        if acc[j].name == *name {
            assert(deref_seq(acc@)[j as int].name@ == name@);
            return true;
        }
        j = j + 1;
    }
    false
}

/// Keeps the first record of each name and drops later ones.
pub fn dedup_by_name<'a>(apps: &Vec<&'a AppReference>) -> (r: Vec<&'a AppReference>)
    ensures
        deref_seq(r@) == first_by_name(deref_seq(apps@)),
{
    let ghost src = deref_seq(apps@);
    let mut acc: Vec<&'a AppReference> = Vec::new();
    let mut i: usize = 0;
    while i < apps.len()
        invariant
            i <= apps.len(),
            src == deref_seq(apps@),
            deref_seq(acc@) == first_by_name(src.subrange(0, i as int)),
        decreases apps.len() - i,
    {
        let app: &'a AppReference = apps[i];
        proof {
            assert(src.subrange(0, i + 1).drop_last() =~= src.subrange(0, i as int));
            assert(src.subrange(0, i + 1).last() == *app);
        }
        if !name_seen(&acc, &app.name) {
            proof {
                assert(deref_seq(acc@.push(app)) =~= deref_seq(acc@).push(*app));
            }
            acc.push(app);
        }
        i = i + 1;
    }
    assert(src.subrange(0, src.len() as int) =~= src);
    acc
}

/// Every name of the input appears among the first-by-name records.
proof fn lemma_first_by_name_covers(s: Seq<AppReference>)
    ensures
        forall|i: int| 0 <= i < s.len() ==> has_name(first_by_name(s), #[trigger] s[i].name@),
    decreases s.len(),
{
    if s.len() > 0 {
        let p = s.drop_last();
        lemma_first_by_name_covers(p);
        let rest = first_by_name(p);
        let d = first_by_name(s);
        assert forall|i: int| 0 <= i < s.len() implies has_name(d, #[trigger] s[i].name@) by {
            if i < s.len() - 1 {
                assert(p[i] == s[i]);
                let k = choose|k: int| 0 <= k < rest.len() && #[trigger] rest[k].name@ == s[i].name@;
                assert(d[k] == rest[k]);
            } else if !has_name(rest, s.last().name@) {
                assert(d[rest.len() as int] == s.last());
            }
        }
    }
}

/// No two first-by-name records share a name.
proof fn lemma_first_by_name_unique(s: Seq<AppReference>)
    ensures
        forall|a: int, b: int|
            0 <= a < b < first_by_name(s).len() ==> #[trigger] first_by_name(s)[a].name@
                != #[trigger] first_by_name(s)[b].name@,
    decreases s.len(),
{
    if s.len() > 0 {
        let p = s.drop_last();
        lemma_first_by_name_unique(p);
        let rest = first_by_name(p);
        let d = first_by_name(s);
        if !has_name(rest, s.last().name@) {
            assert forall|a: int, b: int| 0 <= a < b < d.len() implies #[trigger] d[a].name@
                != #[trigger] d[b].name@ by {
                if b == rest.len() {
                    assert(d[a] == rest[a]);
                    if d[a].name@ == d[b].name@ {
                        assert(rest[a].name@ == s.last().name@);
                    }
                } else {
                    assert(d[a] == rest[a] && d[b] == rest[b]);
                }
            }
        }
    }
}

/// Each first-by-name record is the first record of its name in the input.
proof fn lemma_first_by_name_origin(s: Seq<AppReference>)
    ensures
        forall|k: int|
            0 <= k < first_by_name(s).len() ==> exists|i: int|
                0 <= i < s.len() && s[i] == #[trigger] first_by_name(s)[k] && forall|j: int|
                    0 <= j < i ==> s[j].name@ != s[i].name@,
    decreases s.len(),
{
    if s.len() > 0 {
        let p = s.drop_last();
        lemma_first_by_name_origin(p);
        lemma_first_by_name_covers(p);
        let rest = first_by_name(p);
        let d = first_by_name(s);
        assert forall|k: int| 0 <= k < d.len() implies exists|i: int|
            0 <= i < s.len() && s[i] == #[trigger] d[k] && forall|j: int|
                0 <= j < i ==> s[j].name@ != s[i].name@ by {
            if k < rest.len() {
                assert(d[k] == rest[k]);
                let i = choose|i: int|
                    0 <= i < p.len() && p[i] == #[trigger] rest[k] && forall|j: int|
                        0 <= j < i ==> p[j].name@ != p[i].name@;
                assert(s[i] == p[i]);
                assert forall|j: int| 0 <= j < i implies s[j].name@ != s[i].name@ by {
                    assert(s[j] == p[j]);
                }
            } else {
                let i = s.len() - 1;
                assert(d[k] == s[i]);
                assert forall|j: int| 0 <= j < i implies s[j].name@ != s[i].name@ by {
                    assert(s[j] == p[j]);
                    assert(has_name(rest, p[j].name@));
                }
            }
        }
    }
}

/// No record kept by the system filter has a system-owned bundle path.
proof fn lemma_user_apps_not_system(s: Seq<AppReference>)
    ensures
        forall|k: int| 0 <= k < user_apps(s).len() ==> !is_system_path(#[trigger] user_apps(s)[k].path@),
    decreases s.len(),
{
    if s.len() > 0 {
        lemma_user_apps_not_system(s.drop_last());
        let rest = user_apps(s.drop_last());
        assert forall|k: int| 0 <= k < user_apps(s).len() implies !is_system_path(
            #[trigger] user_apps(s)[k].path@,
        ) by {
            if k < rest.len() {
                assert(user_apps(s)[k] == rest[k]);
            }
        }
    }
}

/// The catalog holds exactly one record per name of the filtered listing:
/// its names are distinct, every name of a non-system record appears, and
/// each record is, field for field, the first non-system record of its name.
pub proof fn lemma_catalog_one_per_name(s: Seq<AppReference>)
    ensures
        forall|a: int, b: int|
            0 <= a < b < catalog_of(s).len() ==> #[trigger] catalog_of(s)[a].name@
                != #[trigger] catalog_of(s)[b].name@,
        forall|i: int|
            0 <= i < user_apps(s).len() ==> has_name(catalog_of(s), #[trigger] user_apps(s)[i].name@),
        forall|k: int|
            0 <= k < catalog_of(s).len() ==> exists|i: int|
                0 <= i < user_apps(s).len() && user_apps(s)[i] == #[trigger] catalog_of(s)[k]
                    && forall|j: int| 0 <= j < i ==> user_apps(s)[j].name@ != user_apps(s)[i].name@,
{
    lemma_first_by_name_unique(user_apps(s));
    lemma_first_by_name_covers(user_apps(s));
    lemma_first_by_name_origin(user_apps(s));
}

/// No catalog record has a bundle path containing the system marker.
pub proof fn lemma_catalog_excludes_system(s: Seq<AppReference>)
    ensures
        forall|k: int| 0 <= k < catalog_of(s).len() ==> !is_system_path(#[trigger] catalog_of(s)[k].path@),
{
    lemma_user_apps_not_system(s);
    lemma_first_by_name_origin(user_apps(s));
    assert forall|k: int| 0 <= k < catalog_of(s).len() implies !is_system_path(
        #[trigger] catalog_of(s)[k].path@,
    ) by {
        let t = user_apps(s);
        let i = choose|i: int|
            0 <= i < t.len() && t[i] == #[trigger] first_by_name(t)[k] && forall|j: int|
                0 <= j < i ==> t[j].name@ != t[i].name@;
        assert(t[i].path@ == catalog_of(s)[k].path@);
    }
}

/// The catalog of a discovery listing: system-owned records dropped, then the
/// first record of each name kept, in discovery order, each copied as it is.
pub fn build_catalog(apps: &Vec<AppReference>) -> (r: Vec<AppReference>)
    ensures
        r@ == catalog_of(apps@),
{
    let users = filter_system_apps(apps);
    let firsts = dedup_by_name(&users);
    let ghost want = deref_seq(firsts@);
    let mut r: Vec<AppReference> = Vec::new();
    let mut i: usize = 0;
    while i < firsts.len()
        invariant
            i <= firsts.len(),
            want == deref_seq(firsts@),
            want == catalog_of(apps@),
            r@ == want.subrange(0, i as int),
        decreases firsts.len() - i,
    {
        let app: &AppReference = firsts[i];
        r.push(app.copy());
        proof {
            assert(r@ =~= want.subrange(0, i + 1));
        }
        i = i + 1;
    }
    assert(want.subrange(0, want.len() as int) =~= want);
    r
}

/// The bytes of an icon container as read, if it could be read.
pub open spec fn read_bytes(c: Option<Vec<u8>>) -> Option<Seq<u8>> {
    match c {
        Some(v) => Some(v@),
        None => None,
    }
}

/// Gives each catalog entry the payload of its icon container, where
/// `containers[i]` holds the bytes read from entry `i`'s icon path (`None`
/// when there is no path or the file could not be read).
pub fn resolve_icons(entries: &Vec<AppReference>, containers: &Vec<Option<Vec<u8>>>) -> (r: Vec<AppReference>)
    requires
        containers@.len() == entries@.len(),
    ensures
        r@.len() == entries@.len(),
        forall|i: int|
            0 <= i < r@.len() ==> {
                &&& #[trigger] r@[i].name == entries@[i].name
                &&& r@[i].icon == entries@[i].icon
                &&& r@[i].path == entries@[i].path
                &&& r@[i].executable_path == entries@[i].executable_path
                &&& entries@[i].icon is None ==> r@[i].icon_base64 is None
                &&& entries@[i].icon is Some ==> text_option(r@[i].icon_base64) == icon_payload(
                    read_bytes(containers@[i]),
                )
            },
{
    let mut r: Vec<AppReference> = Vec::new();
    let mut i: usize = 0;
    while i < entries.len()
        invariant
            i <= entries@.len(),
            containers@.len() == entries@.len(),
            r@.len() == i,
            forall|j: int|
                0 <= j < i ==> {
                    &&& #[trigger] r@[j].name == entries@[j].name
                    &&& r@[j].icon == entries@[j].icon
                    &&& r@[j].path == entries@[j].path
                    &&& r@[j].executable_path == entries@[j].executable_path
                    &&& entries@[j].icon is None ==> r@[j].icon_base64 is None
                    &&& entries@[j].icon is Some ==> text_option(r@[j].icon_base64) == icon_payload(
                        read_bytes(containers@[j]),
                    )
                },
        decreases entries@.len() - i,
    {
        let bytes: Option<&[u8]> = match &containers[i] {
            Some(v) => Some(v.as_slice()),
            None => None,
        };
        assert(crate::icon::bytes_of(bytes) == read_bytes(containers@[i as int]));
        let entry = entries[i].copy().with_icon_base64(bytes);
        let ghost before = r@;
        r.push(entry);
        assert forall|j: int| 0 <= j < i implies r@[j] == before[j] by {}
        i = i + 1;
    }
    r
}

/// Why no catalog could be built.
#[derive(Debug, Clone, Copy, PartialEq, Eq, Structural)]
pub enum BuildError {
    /// The discovery source could not enumerate applications.
    DiscoveryFailed,
}

/// Builds the catalog from the outcome of discovery: a failed discovery is
/// the one error that aborts a build.
pub fn build_from_discovery(listing: Result<Vec<AppReference>, ()>) -> (r: Result<Vec<AppReference>, BuildError>)
    ensures
        listing is Err ==> r == Err::<Vec<AppReference>, BuildError>(BuildError::DiscoveryFailed),
        listing is Ok ==> r is Ok && (r->Ok_0)@ == catalog_of((listing->Ok_0)@),
{
    match listing {
        Ok(apps) => Ok(build_catalog(&apps)),
        Err(_) => Err(BuildError::DiscoveryFailed),
    }
}

} // verus!
