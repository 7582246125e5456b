//! The downloaded archive: a zip container held in memory, its entries, and
//! the safe path each entry may be extracted to.
//!
//! The zip container format is read through the `zip` crate, behind trusted
//! wrappers; everything the entries' names and bytes then decide — which
//! entries are safe to place under the staging directory, and where — is
//! verified here.

use vstd::prelude::*;
use vstd::string::*;
use crate::UpdateError;

verus! {

/// One archive entry, read out whole: its stored name and its decompressed
/// bytes (empty for a directory entry).
struct ArchiveEntry {
    name: String,
    data: Vec<u8>,
}

/// An open zip container over the downloaded bytes.  Opaque: what it holds
/// is spoken of only through `archive_entries`.
#[verifier::external_body]
pub struct Archive {
    inner: zip::ZipArchive<std::io::Cursor<Vec<u8>>>,
}

/// What parsing `bytes` as a zip container yields: `None` when the bytes do
/// not form a readable container, otherwise the entries in index order, each
/// as its stored name and its decompressed bytes.  A function of the bytes
/// alone.
pub uninterp spec fn zip_parse(bytes: Seq<u8>) -> Option<Seq<(Seq<char>, Seq<u8>)>>;

/// What an open `Archive` holds: its entries in index order.
pub uninterp spec fn archive_entries(a: Archive) -> Seq<(Seq<char>, Seq<u8>)>;

/// Whether every member of the container in `bytes` can be opened and read
/// out whole (no unsupported compression method, no encryption, no corrupt
/// member data).  Meaningful where `zip_parse(bytes)` is `Some`; a function
/// of the bytes alone.
pub uninterp spec fn zip_members_ok(bytes: Seq<u8>) -> bool;

/// Whether every member of an open `Archive` can be opened and read out
/// whole.
pub uninterp spec fn archive_readable(a: Archive) -> bool;

/// Relies on `zip::ZipArchive::new` over an in-memory cursor: reading the
/// container's central directory succeeds exactly when the bytes form a
/// readable zip container, and the archive then holds that container's
/// entries.
#[verifier::external_body]
fn archive_open(bytes: &Vec<u8>) -> (r: Option<Archive>)
    ensures
        r is Some <==> zip_parse(bytes@) is Some,
        r is Some ==> archive_entries(r->Some_0) == zip_parse(bytes@)->Some_0,
        r is Some ==> archive_readable(r->Some_0) == zip_members_ok(bytes@),
{
    match zip::ZipArchive::new(std::io::Cursor::new(bytes.clone())) {
        Ok(inner) => Some(Archive { inner }),
        Err(_) => None,
    }
}

/// Relies on `zip::ZipArchive::len`: how many entries the container holds.
#[verifier::external_body]
fn archive_len(a: &Archive) -> (r: usize)
    ensures
        r == archive_entries(*a).len(),
{
    a.inner.len()
}

/// Relies on `zip::ZipArchive::by_index` and `std::io::Read::read_to_end`:
/// entry `i`'s stored name and decompressed bytes, read out whole.  `None`
/// when the member cannot be opened or decompressed — which, for an archive
/// whose members are all readable, never happens.
#[verifier::external_body]
fn archive_entry(a: &mut Archive, i: usize) -> (r: Option<ArchiveEntry>)
    requires
        i < archive_entries(*old(a)).len(),
    ensures
        archive_entries(*final(a)) == archive_entries(*old(a)),
        archive_readable(*final(a)) == archive_readable(*old(a)),
        r is Some ==> (r->Some_0.name@, r->Some_0.data@) == archive_entries(*old(a))[i as int],
        archive_readable(*old(a)) ==> r is Some,
{
    let mut file = match a.inner.by_index(i) {
        Ok(f) => f,
        Err(_) => return None,
    };
    let name = file.name().to_owned();
    let mut data = Vec::new();
    match std::io::Read::read_to_end(&mut file, &mut data) {
        Ok(_) => Some(ArchiveEntry { name, data }),
        Err(_) => None,
    }
}

/// An entry names a directory when its stored name ends in `/`, the zip
/// convention.
pub open spec fn entry_is_dir(name: Seq<char>) -> bool {
    name.len() > 0 && name.last() == '/'
}

fn is_dir_name(name: &str) -> (r: bool)
    ensures
        r == entry_is_dir(name@),
{
    let n = name.unicode_len();
    n > 0 && name.get_char(n - 1) == '/'
}

/// The name split at every `/`: the path components as stored, separators
/// dropped, empty components kept (they are filtered later).
pub open spec fn split_slash(s: Seq<char>) -> Seq<Seq<char>>
    decreases s.len(),
{
    if s.len() == 0 {
        seq![Seq::empty()]
    } else {
        let rest = split_slash(s.drop_last());
        if s.last() == '/' {
            rest.push(Seq::empty())
        } else {
            rest.update(rest.len() - 1, rest.last().push(s.last()))
        }
    }
}

/// A stored component that may take part in a safe relative path: not a
/// parent-directory step, and free of NUL bytes, backslashes and drive
/// separators.
pub open spec fn component_ok(c: Seq<char>) -> bool {
    &&& c != seq!['.', '.']
    &&& forall|j: int| 0 <= j < c.len() ==> c[j] != '\u{0}' && c[j] != '\\' && c[j] != ':'
}

/// A name that can be safely enclosed below the staging directory: it is
/// not empty, not absolute, and every component of it is acceptable.
pub open spec fn name_safe(name: Seq<char>) -> bool {
    &&& name.len() > 0
    &&& name[0] != '/'
    &&& forall|i: int|
        0 <= i < split_slash(name).len() ==> component_ok(#[trigger] split_slash(name)[i])
}

/// A component that actually appears in the extraction path: empty
/// components (doubled or trailing separators) and bare `.` steps vanish
/// when a path is resolved, so they are dropped rather than kept.
pub open spec fn keep_component(c: Seq<char>) -> bool {
    c.len() > 0 && c != seq!['.']
}

/// The components that remain of a component list once the vanishing ones
/// are dropped, in order.
pub open spec fn kept_of(comps: Seq<Seq<char>>) -> Seq<Seq<char>>
    decreases comps.len(),
{
    if comps.len() == 0 {
        Seq::empty()
    } else {
        let rest = kept_of(comps.drop_last());
        if keep_component(comps.last()) {
            rest.push(comps.last())
        } else {
            rest
        }
    }
}

/// The relative path an entry extracts to, as its components in order.
pub open spec fn kept_components(name: Seq<char>) -> Seq<Seq<char>> {
    kept_of(split_slash(name))
}

fn component_ok_exec(c: &str) -> (r: bool)
    ensures
        r == component_ok(c@),
{
    let n = c.unicode_len();
    if n == 2 && c.get_char(0) == '.' && c.get_char(1) == '.' {
        assert(c@ =~= seq!['.', '.']);
        return false;
    }
    assert(c@ != seq!['.', '.']);
    let mut j: usize = 0;
    while j < n
        invariant
            n == c@.len(),
            0 <= j <= n,
            forall|k: int| 0 <= k < j ==> c@[k] != '\u{0}' && c@[k] != '\\' && c@[k] != ':',
        decreases n - j,
    {
        let ch = c.get_char(j);
        if ch == '\u{0}' || ch == '\\' || ch == ':' {
            return false;
        }
        j = j + 1;
    }
    true
}

fn keep_component_exec(c: &str) -> (r: bool)
    ensures
        r == keep_component(c@),
{
    let n = c.unicode_len();
    if n == 0 {
        return false;
    }
    if n == 1 && c.get_char(0) == '.' {
        assert(c@ =~= seq!['.']);
        return false;
    }
    assert(c@ != seq!['.']);
    true
}

/// Derive the safe relative path for one entry name, or decide that the
/// entry must be skipped.
///
/// `Some(components)` is returned exactly when the name is safe to enclose
/// and leaves at least one real component; the components are the entry's
/// stored path components with vanishing ones dropped, in order.  Anything
/// else — an empty or absolute name, a `..` step, a NUL, backslash or drive
/// separator anywhere, or a name that resolves to nothing — is `None`: that
/// entry is skipped, and never aborts the install.
pub fn enclose_name(name: &str) -> (r: Option<Vec<String>>)
    ensures
        match r {
            Some(comps) => {
                &&& name_safe(name@)
                &&& kept_components(name@).len() > 0
                &&& comps@.map_values(|s: String| s@) == kept_components(name@)
            },
            None => !name_safe(name@) || kept_components(name@).len() == 0,
        },
{
    let n = name.unicode_len();
    if n == 0 {
        return None;
    }
    if name.get_char(0) == '/' {
        return None;
    }
    // Split the name at every separator.
    let mut comps: Vec<String> = Vec::new();
    let mut cur_start: usize = 0;
    let mut i: usize = 0;
    proof {
        assert(name@.take(0) =~= Seq::<char>::empty());
        assert(split_slash(name@.take(0)) =~~= comps@.map_values(|s: String| s@).push(
            name@.subrange(0, 0),
        ));
    }
    while i < n
        invariant
            n == name@.len(),
            0 <= cur_start <= i <= n,
            split_slash(name@.take(i as int)) == comps@.map_values(|s: String| s@).push(
                name@.subrange(cur_start as int, i as int),
            ),
        decreases n - i,
    {
        let ghost prefix = name@.take(i as int);
        proof {
            assert(name@.take(i + 1).drop_last() =~= prefix);
            assert(name@.take(i + 1).last() == name@[i as int]);
        }
        if name.get_char(i) == '/' {
            let piece = name.substring_char(cur_start, i);
            comps.push(piece.to_owned());
            proof {
                assert(comps@.map_values(|s: String| s@) =~~= split_slash(prefix));
                assert(split_slash(name@.take(i + 1)) =~~= comps@.map_values(
                    |s: String| s@,
                ).push(name@.subrange(i + 1, i + 1)));
            }
            cur_start = i + 1;
        } else {
            proof {
                let m = comps@.map_values(|s: String| s@);
                assert(split_slash(prefix).last() == name@.subrange(
                    cur_start as int,
                    i as int,
                ));
                assert(split_slash(prefix).len() == m.len() + 1);
                assert(name@.subrange(cur_start as int, i as int).push(name@[i as int])
                    =~= name@.subrange(cur_start as int, i + 1));
                assert(split_slash(name@.take(i + 1)) =~~= m.push(
                    name@.subrange(cur_start as int, i + 1),
                ));
            }
        }
        i = i + 1;
    }
    let last_piece = name.substring_char(cur_start, n);
    comps.push(last_piece.to_owned());
    proof {
        assert(name@.take(n as int) =~= name@);
        assert(comps@.map_values(|s: String| s@) =~~= split_slash(name@));
    }
    // Check every component; keep the ones that take part in the path.
    let total = comps.len();
    let mut kept: Vec<String> = Vec::new();
    let mut k: usize = 0;
    while k < total
        invariant
            total == comps@.len(),
            comps@.map_values(|s: String| s@) == split_slash(name@),
            0 <= k <= total,
            forall|j: int| 0 <= j < k ==> component_ok(#[trigger] split_slash(name@)[j]),
            kept@.map_values(|s: String| s@) == kept_of(split_slash(name@).take(k as int)),
        decreases total - k,
    {
        let ghost all = split_slash(name@);
        proof {
            assert(all.take(k + 1).drop_last() =~= all.take(k as int));
            assert(all.take(k + 1).last() == all[k as int]);
            assert(comps@.map_values(|s: String| s@)[k as int] == comps@[k as int]@);
        }
        if !component_ok_exec(comps[k].as_str()) {
            return None;
        }
        if keep_component_exec(comps[k].as_str()) {
            let piece = comps[k].clone();
            kept.push(piece);
            proof {
                assert(kept@.map_values(|s: String| s@) =~~= kept_of(all.take(k + 1)));
            }
        } else {
            proof {
                assert(kept@.map_values(|s: String| s@) =~~= kept_of(all.take(k + 1)));
            }
        }
        k = k + 1;
    }
    proof {
        assert(split_slash(name@).take(total as int) =~= split_slash(name@));
    }
    if kept.len() == 0 {
        return None;
    }
    Some(kept)
}

/// One step of the extraction plan.  Every path is relative to the staging
/// directory, already enclosed: a `Dir` step creates a directory, a `File`
/// step creates parent directories as needed and writes the entry's bytes
/// verbatim.
#[derive(Debug)]
pub enum PlanStep {
    Dir { rel: Vec<String> },
    File { rel: Vec<String>, data: Vec<u8> },
}

/// The ghost image of a plan step: its path components and, for a file,
/// its exact bytes.
pub enum PlanStepSpec {
    Dir { rel: Seq<Seq<char>> },
    File { rel: Seq<Seq<char>>, data: Seq<u8> },
}

impl View for PlanStep {
    type V = PlanStepSpec;

    open spec fn view(&self) -> PlanStepSpec {
        match self {
            PlanStep::Dir { rel } => PlanStepSpec::Dir {
                rel: rel@.map_values(|s: String| s@),
            },
            PlanStep::File { rel, data } => PlanStepSpec::File {
                rel: rel@.map_values(|s: String| s@),
                data: data@,
            },
        }
    }
}

/// What one archive entry contributes to the plan: nothing when its name
/// cannot be enclosed or resolves to nothing (the entry is skipped, never a
/// failure); a directory step when the name ends in `/`; otherwise a file
/// step carrying the entry's bytes unchanged.
pub open spec fn step_of_entry(name: Seq<char>, data: Seq<u8>) -> Seq<PlanStepSpec> {
    if !name_safe(name) || kept_components(name).len() == 0 {
        Seq::empty()
    } else if entry_is_dir(name) {
        seq![PlanStepSpec::Dir { rel: kept_components(name) }]
    } else {
        seq![PlanStepSpec::File { rel: kept_components(name), data }]
    }
}

/// The whole extraction plan for an entry list, in entry order.
pub open spec fn plan_of(entries: Seq<(Seq<char>, Seq<u8>)>) -> Seq<PlanStepSpec>
    decreases entries.len(),
{
    if entries.len() == 0 {
        Seq::empty()
    } else {
        plan_of(entries.drop_last()) + step_of_entry(entries.last().0, entries.last().1)
    }
}

/// Decode the downloaded bytes as a zip container and lay out the
/// extraction plan.
///
/// Bytes that are not a readable container fail with `ArchiveError` (as
/// does a member that cannot be decompressed), and nothing is planned; a
/// container whose members are all readable is owed a plan.  On success the
/// plan is exactly `plan_of` the container's entries — unsafe names
/// skipped, directory entries as directory steps, file entries with their
/// bytes verbatim, in entry order.
pub fn archive_plan(bytes: &Vec<u8>) -> (r: Result<Vec<PlanStep>, UpdateError>)
    ensures
        match r {
            Ok(steps) => zip_parse(bytes@) is Some && steps@.map_values(|s: PlanStep| s@)
                == plan_of(zip_parse(bytes@)->Some_0),
            Err(e) => e is ArchiveError,
        },
        zip_parse(bytes@) is None ==> r is Err,
        zip_parse(bytes@) is Some && zip_members_ok(bytes@) ==> r is Ok,
{
    let mut a = match archive_open(bytes) {
        Some(a) => a,
        None => {
            return Err(UpdateError::ArchiveError);
        },
    };
    let ghost entries = zip_parse(bytes@)->Some_0;
    let n = archive_len(&a);
    let mut steps: Vec<PlanStep> = Vec::new();
    let mut i: usize = 0;
    while i < n
        invariant
            zip_parse(bytes@) is Some,
            archive_entries(a) == entries,
            archive_readable(a) == zip_members_ok(bytes@),
            entries == zip_parse(bytes@)->Some_0,
            n == entries.len(),
            0 <= i <= n,
            steps@.map_values(|s: PlanStep| s@) == plan_of(entries.take(i as int)),
        decreases n - i,
    {
        proof {
            assert(entries.take(i + 1).drop_last() =~~= entries.take(i as int));
            assert(entries.take(i + 1).last() == entries[i as int]);
        }
        let entry = match archive_entry(&mut a, i) {
            Some(e) => e,
            None => {
                proof {
                    assert(!archive_readable(a));
                    assert(!zip_members_ok(bytes@));
                }
                return Err(UpdateError::ArchiveError);
            },
        };
        let is_dir = is_dir_name(entry.name.as_str());
        match enclose_name(entry.name.as_str()) {
            None => {
                proof {
                    assert(steps@.map_values(|s: PlanStep| s@) =~~= plan_of(
                        entries.take(i + 1),
                    ));
                }
            },
            Some(rel) => {
                if is_dir {
                    steps.push(PlanStep::Dir { rel });
                } else {
                    steps.push(PlanStep::File { rel, data: entry.data });
                }
                proof {
                    assert(steps@.map_values(|s: PlanStep| s@) =~~= plan_of(
                        entries.take(i + 1),
                    ));
                }
            },
        }
        i = i + 1;
    }
    proof {
        assert(entries.take(n as int) =~~= entries);
    }
    Ok(steps)
}

/// A path component that cannot climb out of the directory it is joined
/// under: a real name, not a `.` or `..` step, with no separator, drive
/// letter separator, backslash or NUL anywhere in it.
pub open spec fn enclosed_component(c: Seq<char>) -> bool {
    &&& c.len() > 0
    &&& c != seq!['.']
    &&& c != seq!['.', '.']
    &&& forall|j: int|
        0 <= j < c.len() ==> c[j] != '/' && c[j] != '\u{0}' && c[j] != '\\' && c[j] != ':'
}

/// Splitting always yields at least one component.
proof fn lemma_split_len(s: Seq<char>)
    ensures
        split_slash(s).len() >= 1,
    decreases s.len(),
{
    if s.len() > 0 {
        lemma_split_len(s.drop_last());
    }
}

/// No component produced by splitting contains a separator.
proof fn lemma_split_no_slash(s: Seq<char>)
    ensures
        forall|i: int, j: int|
            0 <= i < split_slash(s).len() && 0 <= j < split_slash(s)[i].len()
                ==> #[trigger] split_slash(s)[i][j] != '/',
    decreases s.len(),
{
    if s.len() > 0 {
        lemma_split_no_slash(s.drop_last());
        lemma_split_len(s.drop_last());
        let rest = split_slash(s.drop_last());
        assert forall|i: int, j: int|
            0 <= i < split_slash(s).len() && 0 <= j < split_slash(s)[i].len()
                implies #[trigger] split_slash(s)[i][j] != '/' by {
            if s.last() == '/' {
                if i < rest.len() {
                    assert(split_slash(s)[i] == rest[i]);
                }
            } else {
                if i < rest.len() - 1 {
                    assert(split_slash(s)[i] == rest[i]);
                } else {
                    assert(split_slash(s)[i] == rest[rest.len() - 1].push(s.last()));
                    if j < rest[rest.len() - 1].len() {
                        assert(split_slash(s)[i][j] == rest[rest.len() - 1][j]);
                    }
                }
            }
        }
    }
}

/// Every kept component was a stored component, and is one that resolves
/// to a real path element.
proof fn lemma_kept_elements(comps: Seq<Seq<char>>)
    ensures
        forall|k: int|
            0 <= k < kept_of(comps).len() ==> keep_component(#[trigger] kept_of(comps)[k])
                && comps.contains(kept_of(comps)[k]),
    decreases comps.len(),
{
    if comps.len() > 0 {
        let front = comps.drop_last();
        lemma_kept_elements(front);
        assert forall|k: int|
            0 <= k < kept_of(comps).len() implies keep_component(
            #[trigger] kept_of(comps)[k],
        ) && comps.contains(kept_of(comps)[k]) by {
            let rest = kept_of(front);
            if k < rest.len() {
                assert(front.contains(rest[k]));
                let m = choose|m: int| 0 <= m < front.len() && front[m] == rest[k];
                assert(comps[m] == rest[k]);
            } else {
                assert(keep_component(comps.last()));
                assert(comps[comps.len() - 1] == comps.last());
            }
        }
    }
}

/// Law (path enclosure): for a safe entry name, every component of the
/// extraction path is a plain relative path element — never empty, never a
/// `.` or `..` step, and free of separators, backslashes, drive letter
/// separators and NULs — so the joined path cannot resolve outside the
/// staging directory.
pub proof fn lemma_enclosed_components(name: Seq<char>)
    requires
        name_safe(name),
    ensures
        forall|k: int|
            0 <= k < kept_components(name).len() ==> enclosed_component(
                #[trigger] kept_components(name)[k],
            ),
{
    lemma_split_no_slash(name);
    lemma_kept_elements(split_slash(name));
    assert forall|k: int|
        0 <= k < kept_components(name).len() implies enclosed_component(
        #[trigger] kept_components(name)[k],
    ) by {
        let c = kept_components(name)[k];
        assert(split_slash(name).contains(c));
        let m = choose|m: int| 0 <= m < split_slash(name).len() && split_slash(name)[m] == c;
        assert(component_ok(split_slash(name)[m]));
        assert forall|j: int| 0 <= j < c.len() implies c[j] != '/' && c[j] != '\u{0}'
            && c[j] != '\\' && c[j] != ':' by {
            assert(split_slash(name)[m][j] != '/');
        }
    }
}

} // verus!
