//! The enterprise skill archive: which of its entries are installed as
//! creator skills, and where.
//!
//! An entry `<top>/.opencode/skills/<name>-creator/<path...>` is installed
//! under `<skills>/<name>-creator/<path...>`, unless the skill is already
//! present or the entry's path could leave the skills directory.

use vstd::prelude::*;
use std::io::Read;
use crate::text::{texts, has_suffix, same_text, ends_with_text, owned};

verus! {

#[verifier::external_type_specification]
#[verifier::external_body]
#[verifier::reject_recursive_types(T)]
pub struct ExCursor<T>(std::io::Cursor<T>);

#[verifier::external_type_specification]
#[verifier::external_body]
#[verifier::reject_recursive_types(R)]
pub struct ExZipArchive<R>(zip::ZipArchive<R>);

/// An archive read from bytes held in memory.
pub type MemArchive = zip::ZipArchive<std::io::Cursor<Vec<u8>>>;

/// One entry of an opened archive, as plain values.
pub struct ZipEntry {
    /// The entry's name.
    pub name: Seq<char>,
    /// Whether `ZipArchive::by_index` opens the entry, or else the display
    /// text of the error it gives.
    pub lookup: Result<(), Seq<char>>,
    /// The bytes that opening the entry and reading it to its end yield, or
    /// else the display text of the error that stops it.
    pub content: Result<Seq<u8>, Seq<char>>,
}

/// The entries of an opened archive, in the order of its table of entries
/// (an entry that repeats an earlier entry's name takes that entry's place).
pub uninterp spec fn zip_entries(a: zip::ZipArchive<std::io::Cursor<Vec<u8>>>) -> Seq<ZipEntry>;

/// What `zip::ZipArchive::new` makes of the bytes: the entries of the
/// archive they hold, or the display text of the error it gives.
pub uninterp spec fn zip_open(bytes: Seq<u8>) -> Result<Seq<ZipEntry>, Seq<char>>;

/// Calls `zip::ZipArchive::new` on the bytes, converting an error to its
/// display text. The claim: the outcome is a function of the bytes alone.
#[verifier::external_body]
fn open_archive(bytes: Vec<u8>) -> (r: Result<MemArchive, String>)
    ensures
        match zip_open(bytes@) {
            Ok(es) => r matches Ok(a) && zip_entries(a) == es,
            Err(t) => r matches Err(s) && s@ == t,
        },
{
    zip::ZipArchive::new(std::io::Cursor::new(bytes)).map_err(|e| e.to_string())
}

/// Calls `zip::ZipArchive::len`: the number of entries.
#[verifier::external_body]
fn archive_len(a: &MemArchive) -> (n: usize)
    ensures
        n == zip_entries(*a).len(),
{
    a.len()
}

/// Calls `zip::ZipArchive::by_index` and `ZipFile::name`, converting an
/// error to its display text. The claim: within range, the outcome is the
/// entry's (its name, or its lookup error, both fixed by the archive's
/// bytes); out of range it fails; the entries do not change (the table of
/// entries is read once, when the archive is opened).
#[verifier::external_body]
fn entry_name(a: &mut MemArchive, i: usize) -> (r: Result<String, String>)
    ensures
        zip_entries(*final(a)) == zip_entries(*old(a)),
        i < zip_entries(*old(a)).len() ==> match zip_entries(*old(a))[i as int].lookup {
            Ok(_) => r matches Ok(s) && s@ == zip_entries(*old(a))[i as int].name,
            Err(t) => r matches Err(s) && s@ == t,
        },
        i >= zip_entries(*old(a)).len() ==> r is Err,
{
    a.by_index(i).map(|f| f.name().to_string()).map_err(|e| e.to_string())
}

/// Calls `zip::ZipArchive::by_index` and reads the entry to its end,
/// converting an error to its display text. The claim: within range, the
/// outcome is the entry's content, or its error, both fixed by the archive's
/// bytes; out of range it fails; the entries do not change.
#[verifier::external_body]
fn entry_bytes(a: &mut MemArchive, i: usize) -> (r: Result<Vec<u8>, String>)
    ensures
        zip_entries(*final(a)) == zip_entries(*old(a)),
        i < zip_entries(*old(a)).len() ==> match zip_entries(*old(a))[i as int].content {
            Ok(b) => r matches Ok(v) && v@ == b,
            Err(t) => r matches Err(s) && s@ == t,
        },
        i >= zip_entries(*old(a)).len() ==> r is Err,
{
    match a.by_index(i) {
        Err(e) => Err(e.to_string()),
        Ok(mut f) => {
            let mut buf = Vec::new();
            match f.read_to_end(&mut buf) {
                Ok(_) => Ok(buf),
                Err(e) => Err(e.to_string()),
            }
        },
    }
}

/// A component of a path, as `std::path::Component` gives it.
pub enum PathPart {
    Prefix,
    RootDir,
    CurDir,
    ParentDir,
    Normal(String),
}

/// A path component as plain values.
pub enum PartView {
    Prefix,
    RootDir,
    CurDir,
    ParentDir,
    Normal(Seq<char>),
}

impl View for PathPart {
    type V = PartView;

    open spec fn view(&self) -> PartView {
        match self {
            PathPart::Prefix => PartView::Prefix,
            PathPart::RootDir => PartView::RootDir,
            PathPart::CurDir => PartView::CurDir,
            PathPart::ParentDir => PartView::ParentDir,
            PathPart::Normal(s) => PartView::Normal(s@),
        }
    }
}

/// The pieces of a text between the slashes, empty ones included.
pub open spec fn split_slash(s: Seq<char>) -> Seq<Seq<char>>
    decreases s.len(),
{
    if s.len() == 0 {
        seq![Seq::<char>::empty()]
    } else {
        let rest = split_slash(s.drop_first());
        if s[0] == '/' {
            seq![Seq::<char>::empty()] + rest
        } else {
            rest.update(0, seq![s[0]] + rest[0])
        }
    }
}

/// The components of the pieces of a path: empty pieces and `.` are
/// dropped, `..` is a parent, anything else a normal component.
pub open spec fn piece_parts(pieces: Seq<Seq<char>>) -> Seq<PartView>
    decreases pieces.len(),
{
    if pieces.len() == 0 {
        seq![]
    } else {
        let prev = piece_parts(pieces.drop_last());
        let p = pieces.last();
        if p.len() == 0 || p == seq!['.'] {
            prev
        } else if p == seq!['.', '.'] {
            prev.push(PartView::ParentDir)
        } else {
            prev.push(PartView::Normal(p))
        }
    }
}

/// Whether a name holds no `\`, no `:` and does not begin with two slashes:
/// such a name has no prefix and only `/` separates its components, on
/// every platform.
pub open spec fn plain_name(name: Seq<char>) -> bool {
    &&& !name.contains('\\')
    &&& !name.contains(':')
    &&& !(name.len() >= 2 && name[0] == '/' && name[1] == '/')
}

/// The components of a plain name, as `std::path::Path::components`
/// documents them: a leading `/` is the root; a relative path that begins
/// with a `.` piece begins with the current directory; then the pieces
/// between slashes, without repeated separators, trailing slashes or other
/// `.` pieces.
pub open spec fn plain_components(name: Seq<char>) -> Seq<PartView> {
    let rooted = name.len() > 0 && name[0] == '/';
    let pieces = split_slash(name);
    let root: Seq<PartView> = if rooted { seq![PartView::RootDir] } else { seq![] };
    let cur: Seq<PartView> = if !rooted && pieces[0] == seq!['.'] { seq![PartView::CurDir] } else { seq![] };
    root + cur + piece_parts(pieces)
}

/// Whether a normal component's text is a proper name: not empty, and
/// neither `.` nor `..` (those are the current and parent directory).
pub open spec fn proper_piece(s: Seq<char>) -> bool {
    s.len() > 0 && s != seq!['.'] && s != seq!['.', '.']
}

/// What holds of the components that `std::path` gives for a name: each
/// normal component is a proper piece; when there is no prefix, no normal
/// component holds a `/` (a separator on every platform; only a verbatim
/// `\\?\` path, which has a prefix, leaves `/` inside its components); and a
/// plain name is split as [`plain_components`] says.
pub open spec fn components_of(name: Seq<char>, parts: Seq<PathPart>) -> bool {
    &&& forall|i: int| 0 <= i < parts.len() ==> (#[trigger] parts[i] matches PathPart::Normal(s) ==> proper_piece(s@))
    &&& (forall|i: int| 0 <= i < parts.len() ==> !(#[trigger] parts[i] is Prefix)) ==>
        forall|i: int| 0 <= i < parts.len() ==> (#[trigger] parts[i] matches PathPart::Normal(s) ==> !s@.contains('/'))
    &&& plain_name(name) ==> parts.map_values(|p: PathPart| p@) == plain_components(name)
}

/// Calls `std::path::Path::components` on a name, converting each component
/// to a `PathPart` (a normal component by `to_string_lossy`, which keeps the
/// text of a `&str`). The claim: normal components are never empty, `.` or
/// `..` (repeated separators are skipped; `.` and `..` are the current and
/// parent directory); without a prefix none holds a `/`, which separates
/// components on every platform; and a plain name is split at its slashes as
/// the documentation of `components` describes. How other names split
/// depends on the platform and is not stated.
#[verifier::external_body]
fn path_parts(name: &str) -> (r: Vec<PathPart>)
    ensures
        components_of(name@, r@),
{
    std::path::Path::new(name).components().map(|c| match c {
        std::path::Component::Prefix(_) => PathPart::Prefix,
        std::path::Component::RootDir => PathPart::RootDir,
        std::path::Component::CurDir => PathPart::CurDir,
        std::path::Component::ParentDir => PathPart::ParentDir,
        std::path::Component::Normal(s) => PathPart::Normal(s.to_string_lossy().to_string()),
    }).collect()
}

/// Whether a component could lead out of the directory a path is joined to.
pub open spec fn escapes(p: PathPart) -> bool {
    match p {
        PathPart::Prefix | PathPart::RootDir | PathPart::ParentDir => true,
        _ => false,
    }
}

/// The text of a component that does not escape.
pub open spec fn part_text(p: PathPart) -> Seq<char> {
    match p {
        PathPart::Normal(s) => s@,
        _ => seq!['.'],
    }
}

/// Where an archive entry is installed: the skill directory and the path
/// below it; `is_dir` marks a directory entry.
pub struct EntryTarget {
    pub skill: String,
    pub rest: Vec<String>,
    pub is_dir: bool,
}

/// The target of an entry named `name` with components `parts`, given the
/// skills already present: none when a component escapes, when there are
/// fewer than five components, when the second and third are not
/// `.opencode` and `skills`, when the fourth does not end in `-creator`, or
/// when that skill is already present.
pub open spec fn entry_target(name: Seq<char>, parts: Seq<PathPart>, present: Seq<Seq<char>>) -> Option<(Seq<char>, Seq<Seq<char>>, bool)> {
    let t = parts.map_values(|p: PathPart| part_text(p));
    if exists|i: int| 0 <= i < parts.len() && escapes(#[trigger] parts[i]) {
        None
    } else if parts.len() < 5 {
        None
    } else if t[1] != ".opencode"@ || t[2] != "skills"@ {
        None
    } else if !has_suffix(t[3], "-creator"@) {
        None
    } else if present.contains(t[3]) {
        None
    } else {
        Some((t[3], t.skip(4), has_suffix(name, "/"@)))
    }
}

/// The text of a component that does not escape.
fn part_string(p: &PathPart) -> (r: String)
    ensures
        r@ == part_text(*p),
{
    match p {
        PathPart::Normal(s) => s.clone(),
        _ => {
            proof {
                reveal_strlit(".");
            }
            let r = owned(".");
            assert(r@ =~= seq!['.']);
            r
        },
    }
}

/// Whether a skill name is among the present ones.
fn is_present(present: &Vec<String>, name: &str) -> (r: bool)
    ensures
        r == texts(present@).contains(name@),
{
    let mut i: usize = 0;
    while i < present.len()
        invariant
            i <= present.len(),
            forall|j: int| 0 <= j < i ==> present@[j]@ != name@,
        decreases present.len() - i,
    {
        if same_text(present[i].as_str(), name) {
            assert(texts(present@)[i as int] == name@);
            return true;
        }
        i = i + 1;
    }
    assert forall|j: int| 0 <= j < texts(present@).len() implies texts(present@)[j] != name@ by {
        assert(present@[j]@ != name@);
    }
    false
}

/// Decides where, if anywhere, an archive entry is installed (see
/// [`entry_target`]).
pub fn plan_entry(name: &str, parts: &Vec<PathPart>, present: &Vec<String>) -> (r: Option<EntryTarget>)
    ensures
        match r {
            None => entry_target(name@, parts@, texts(present@)) is None,
            Some(t) => entry_target(name@, parts@, texts(present@))
                == Some((t.skill@, texts(t.rest@), t.is_dir)),
        },
{
    let ghost tv = parts@.map_values(|p: PathPart| part_text(p));
    let mut i: usize = 0;
    while i < parts.len()
        invariant
            i <= parts.len(),
            forall|j: int| 0 <= j < i ==> !escapes(#[trigger] parts@[j]),
        decreases parts.len() - i,
    {
        match &parts[i] {
            PathPart::Prefix | PathPart::RootDir | PathPart::ParentDir => {
                assert(escapes(parts@[i as int]));
                return None;
            },
            _ => {},
        }
        i = i + 1;
    }
    if parts.len() < 5 {
        return None;
    }
    let p1 = part_string(&parts[1]);
    let p2 = part_string(&parts[2]);
    if !same_text(p1.as_str(), ".opencode") || !same_text(p2.as_str(), "skills") {
        return None;
    }
    let skill = part_string(&parts[3]);
    if !ends_with_text(skill.as_str(), "-creator") {
        return None;
    }
    if is_present(present, skill.as_str()) {
        return None;
    }
    let mut rest: Vec<String> = Vec::new();
    let mut k: usize = 4;
    while k < parts.len()
        invariant
            4 <= k <= parts.len(),
            tv.len() == parts@.len(),
            forall|j: int| 0 <= j < tv.len() ==> tv[j] == part_text(#[trigger] parts@[j]),
            texts(rest@) == tv.subrange(4, k as int),
        decreases parts.len() - k,
    {
        let ghost before = rest@;
        rest.push(part_string(&parts[k]));
        assert(texts(rest@) =~= texts(before).push(tv[k as int]));
        assert(tv.subrange(4, k + 1) =~= tv.subrange(4, k as int).push(tv[k as int]));
        k = k + 1;
    }
    assert(tv.subrange(4, parts.len() as int) =~= tv.skip(4));
    let is_dir = ends_with_text(name, "/");
    Some(EntryTarget { skill, rest, is_dir })
}


/// An entry whose path has a root, a prefix or a `..` component is never
/// installed.
pub proof fn law_escaping_entry_skipped(name: Seq<char>, parts: Seq<PathPart>, present: Seq<Seq<char>>, i: int)
    requires
        0 <= i < parts.len(),
        escapes(parts[i]),
    ensures
        entry_target(name, parts, present) is None,
{
}

/// An installed entry belongs to a `-creator` skill that was not present, and
/// lands below that skill's directory along the entry's own components.
pub proof fn law_installed_entry_is_new_creator(name: Seq<char>, parts: Seq<PathPart>, present: Seq<Seq<char>>)
    requires
        entry_target(name, parts, present) is Some,
    ensures
        ({
            let (skill, rest, is_dir) = entry_target(name, parts, present)->0;
            &&& has_suffix(skill, "-creator"@)
            &&& !present.contains(skill)
            &&& parts.len() >= 5 && skill == part_text(parts[3])
            &&& rest.len() == parts.len() - 4
            &&& forall|j: int| 0 <= j < rest.len() ==> !escapes(parts[j + 4]) && #[trigger] rest[j] == part_text(parts[j + 4])
            &&& is_dir == has_suffix(name, "/"@)
        }),
{
}

/// Every entry below `<top>/.opencode/skills/<name>-creator/` whose path
/// does not escape is installed when that skill is not present yet, whatever
/// the skill's name: into that skill, along the rest of its components, as a
/// directory exactly when its name ends in `/`.
pub proof fn law_new_creator_entry_installed(name: Seq<char>, parts: Seq<PathPart>, present: Seq<Seq<char>>)
    requires
        forall|i: int| 0 <= i < parts.len() ==> !escapes(#[trigger] parts[i]),
        parts.len() >= 5,
        part_text(parts[1]) == ".opencode"@,
        part_text(parts[2]) == "skills"@,
        has_suffix(part_text(parts[3]), "-creator"@),
        !present.contains(part_text(parts[3])),
    ensures
        entry_target(name, parts, present) == Some((
            part_text(parts[3]),
            Seq::new((parts.len() - 4) as nat, |j: int| part_text(parts[j + 4])),
            has_suffix(name, "/"@),
        )),
{
    let t = parts.map_values(|p: PathPart| part_text(p));
    assert(t.skip(4) =~= Seq::new((parts.len() - 4) as nat, |j: int| part_text(parts[j + 4])));
}

/// Whether a text is one path component: not empty, not `..`, and free of
/// `/`.
pub open spec fn single_piece(s: Seq<char>) -> bool {
    &&& s.len() > 0
    &&& s != seq!['.', '.']
    &&& !s.contains('/')
}

/// Whether a planned write stays below the skills directory: its skill is a
/// single `-creator` component and every piece of the path below it is a
/// single component.
pub open spec fn stays_inside(w: (Seq<char>, Seq<Seq<char>>, Option<Seq<u8>>)) -> bool {
    &&& single_piece(w.0)
    &&& has_suffix(w.0, "-creator"@)
    &&& forall|j: int| 0 <= j < w.1.len() ==> single_piece(#[trigger] w.1[j])
}

/// An installed entry stays below its skill's directory: given components
/// as `std::path` gives them, the skill and every piece of the path below it
/// are single components (non-empty, not `..`, free of `/`), so joining them
/// onto the skills directory cannot climb out of it or jump elsewhere.
pub proof fn law_installed_entry_stays_inside(name: Seq<char>, parts: Seq<PathPart>, present: Seq<Seq<char>>)
    requires
        components_of(name, parts),
        entry_target(name, parts, present) is Some,
    ensures
        ({
            let (skill, rest, is_dir) = entry_target(name, parts, present)->0;
            &&& stays_inside((skill, rest, None))
            &&& rest.len() > 0
        }),
{
    reveal_strlit("-creator");
    let (skill, rest, is_dir) = entry_target(name, parts, present)->0;
    assert(forall|i: int| 0 <= i < parts.len() ==> !(#[trigger] parts[i] is Prefix)) by {
        assert forall|i: int| 0 <= i < parts.len() implies !(#[trigger] parts[i] is Prefix) by {
            assert(!escapes(parts[i]));
        }
    }
    assert forall|k: int| 4 <= k < parts.len() || k == 3 implies #[trigger] single_piece(part_text(parts[k])) by {
        assert(!escapes(parts[k]));
        if let PathPart::Normal(t) = parts[k] {
            assert(proper_piece(t@));
        } else {
            assert(part_text(parts[k]) == seq!['.']);
            assert(part_text(parts[k]).len() != seq!['.', '.'].len());
            assert(!seq!['.'].contains('/')) by {
                if seq!['.'].contains('/') {
                    let q = choose|q: int| 0 <= q < seq!['.'].len() && seq!['.'][q] == '/';
                }
            }
        }
    }
    assert(skill == part_text(parts[3]));
    assert(single_piece(part_text(parts[3])));
    assert forall|j: int| 0 <= j < rest.len() implies single_piece(#[trigger] rest[j]) by {
        assert(rest[j] == part_text(parts[j + 4]));
        assert(single_piece(part_text(parts[j + 4])));
    }
}

/// Every write planned for entries whose components are as `std::path`
/// gives them stays below the skills directory.
pub proof fn lemma_planned_writes_inside(es: Seq<ZipEntry>, comps: Seq<Seq<PathPart>>, present: Seq<Seq<char>>)
    requires
        comps.len() <= es.len(),
        forall|k: int| 0 <= k < comps.len() ==> components_of(es[k].name, #[trigger] comps[k]),
    ensures
        forall|i: int| 0 <= i < planned_writes(es, comps, present).len()
            ==> stays_inside(#[trigger] planned_writes(es, comps, present)[i]),
    decreases comps.len(),
{
    if comps.len() > 0 {
        let prev = planned_writes(es, comps.drop_last(), present);
        let k = comps.len() - 1;
        assert forall|q: int| 0 <= q < comps.drop_last().len() implies components_of(es[q].name, #[trigger] comps.drop_last()[q]) by {
            assert(comps.drop_last()[q] == comps[q]);
        }
        lemma_planned_writes_inside(es, comps.drop_last(), present);
        assert(components_of(es[k].name, comps[k]));
        if entry_target(es[k].name, comps.last(), present) is Some {
            law_installed_entry_stays_inside(es[k].name, comps.last(), present);
        }
        let all = planned_writes(es, comps, present);
        assert forall|i: int| 0 <= i < all.len() implies stays_inside(#[trigger] all[i]) by {
            if i < prev.len() {
                assert(all[i] == prev[i]);
            }
        }
    }
}

/// What installing a creator skill from the archive writes, below the skills
/// directory: a directory, or a file with its content.
pub enum SkillWrite {
    Dir { skill: String, rest: Vec<String> },
    File { skill: String, rest: Vec<String>, bytes: Vec<u8> },
}

/// Why installing from the archive stopped: the archive could not be opened,
/// an entry could not be looked up, or a file entry's content could not be
/// read. Each holds the display text of the outside error.
pub enum ArchiveError {
    Open(String),
    EntryName(String),
    EntryContent(String),
}

/// The writes that installing from the archive asks for, in order, and the
/// error that stopped it early, if any (the writes before it still stand).
/// `components` records, for each entry looked up, the components that
/// `std::path` gave for its name.
pub struct Extraction {
    pub writes: Vec<SkillWrite>,
    pub error: Option<ArchiveError>,
    pub components: Ghost<Seq<Seq<PathPart>>>,
}

/// A write as plain values: the skill, the path below it, and the content
/// of a file (`None` for a directory).
pub open spec fn write_view(w: SkillWrite) -> (Seq<char>, Seq<Seq<char>>, Option<Seq<u8>>) {
    match w {
        SkillWrite::Dir { skill, rest } => (skill@, texts(rest@), None),
        SkillWrite::File { skill, rest, bytes } => (skill@, texts(rest@), Some(bytes@)),
    }
}

/// The content of an entry that reads.
pub open spec fn content_of(e: ZipEntry) -> Seq<u8> {
    match e.content {
        Ok(b) => b,
        Err(_) => Seq::empty(),
    }
}

/// Whether installing passes an entry: it can be looked up, and, if it is a
/// file to install, its content reads.
pub open spec fn entry_passes(e: ZipEntry, parts: Seq<PathPart>, present: Seq<Seq<char>>) -> bool {
    &&& e.lookup is Ok
    &&& (entry_target(e.name, parts, present) matches Some((_, _, is_dir)) && !is_dir) ==> e.content is Ok
}

/// The writes for the first `comps.len()` entries of an archive, given the
/// components of each of their names: one per entry that has a target (see
/// [`entry_target`]), in the archive's order.
pub open spec fn planned_writes(
    es: Seq<ZipEntry>,
    comps: Seq<Seq<PathPart>>,
    present: Seq<Seq<char>>,
) -> Seq<(Seq<char>, Seq<Seq<char>>, Option<Seq<u8>>)>
    decreases comps.len(),
{
    if comps.len() == 0 {
        seq![]
    } else {
        let prev = planned_writes(es, comps.drop_last(), present);
        let k = comps.len() - 1;
        match entry_target(es[k].name, comps.last(), present) {
            None => prev,
            Some((skill, rest, is_dir)) => prev.push(
                (skill, rest, if is_dir { None } else { Some(content_of(es[k])) }),
            ),
        }
    }
}

/// The write that an entry with a target asks for: its skill, the path below
/// it, and, for a file, the entry's content.
pub open spec fn write_for(e: ZipEntry, t: (Seq<char>, Seq<Seq<char>>, bool)) -> (Seq<char>, Seq<Seq<char>>, Option<Seq<u8>>) {
    (t.0, t.1, if t.2 { None } else { Some(content_of(e)) })
}

/// Every entry that has a target gets its write: installing leaves out no
/// creator skill, whatever skills come before it.
pub proof fn law_every_target_written(es: Seq<ZipEntry>, comps: Seq<Seq<PathPart>>, present: Seq<Seq<char>>, k: int)
    requires
        0 <= k < comps.len(),
        entry_target(es[k].name, comps[k], present) is Some,
    ensures
        planned_writes(es, comps, present).contains(
            write_for(es[k], entry_target(es[k].name, comps[k], present)->0),
        ),
    decreases comps.len(),
{
    let all = planned_writes(es, comps, present);
    let prev = planned_writes(es, comps.drop_last(), present);
    let w = write_for(es[k], entry_target(es[k].name, comps[k], present)->0);
    if k == comps.len() - 1 {
        assert(all == prev.push(w));
        assert(all[all.len() - 1] == w);
    } else {
        assert(comps.drop_last()[k] == comps[k]);
        law_every_target_written(es, comps.drop_last(), present, k);
        let j = choose|j: int| 0 <= j < prev.len() && prev[j] == w;
        lemma_planned_prefix_step(es, comps, present);
        assert(all[j] == prev[j]);
    }
}

/// Adding one more entry only appends to the planned writes.
proof fn lemma_planned_prefix_step(es: Seq<ZipEntry>, comps: Seq<Seq<PathPart>>, present: Seq<Seq<char>>)
    requires
        comps.len() > 0,
    ensures
        planned_writes(es, comps, present).len() >= planned_writes(es, comps.drop_last(), present).len(),
        planned_writes(es, comps, present).take(planned_writes(es, comps.drop_last(), present).len() as int)
            == planned_writes(es, comps.drop_last(), present),
{
    let prev = planned_writes(es, comps.drop_last(), present);
    let all = planned_writes(es, comps, present);
    assert(all.take(prev.len() as int) =~= prev);
}

/// The writes for the first entries come first: what the first `n` entries
/// ask for is a prefix of what all of them ask for, so no entry's writes
/// depend on later entries and the archive's order is kept.
pub proof fn law_writes_follow_archive_order(es: Seq<ZipEntry>, comps: Seq<Seq<PathPart>>, present: Seq<Seq<char>>, n: int)
    requires
        0 <= n <= comps.len(),
    ensures
        planned_writes(es, comps, present).len() >= planned_writes(es, comps.take(n), present).len(),
        planned_writes(es, comps, present).take(planned_writes(es, comps.take(n), present).len() as int)
            == planned_writes(es, comps.take(n), present),
    decreases comps.len(),
{
    if n == comps.len() {
        assert(comps.take(n) =~= comps);
        assert(planned_writes(es, comps, present).take(planned_writes(es, comps, present).len() as int)
            =~= planned_writes(es, comps, present));
    } else {
        assert(comps.drop_last().take(n) =~= comps.take(n));
        law_writes_follow_archive_order(es, comps.drop_last(), present, n);
        lemma_planned_prefix_step(es, comps, present);
        let short = planned_writes(es, comps.take(n), present);
        let mid = planned_writes(es, comps.drop_last(), present);
        let all = planned_writes(es, comps, present);
        assert(all.take(short.len() as int) =~= mid.take(short.len() as int)) by {
            assert forall|i: int| 0 <= i < short.len() implies all[i] == mid[i] by {
                assert(all.take(mid.len() as int)[i] == all[i]);
            }
        }
    }
}

/// The write that entry `k` asks for, if it has a target.
pub open spec fn entry_write(es: Seq<ZipEntry>, comps: Seq<Seq<PathPart>>, present: Seq<Seq<char>>, k: int) -> Option<(Seq<char>, Seq<Seq<char>>, Option<Seq<u8>>)> {
    match entry_target(es[k].name, comps[k], present) {
        Some(t) => Some(write_for(es[k], t)),
        None => None,
    }
}

/// Every planned write comes from an entry with a target, one write per
/// entry, in the archive's order: the writes are drawn from strictly
/// increasing entry positions.
pub proof fn law_writes_come_from_targets(es: Seq<ZipEntry>, comps: Seq<Seq<PathPart>>, present: Seq<Seq<char>>)
    ensures
        exists|idx: Seq<int>| #[trigger] drawn_from_targets(planned_writes(es, comps, present), idx, es, comps, present),
{
    let idx = target_positions(es, comps, present);
    assert(drawn_from_targets(planned_writes(es, comps, present), idx, es, comps, present));
}

/// Whether the writes are those of the entries at the strictly increasing
/// positions `idx`, each of which has a target.
pub open spec fn drawn_from_targets(
    ws: Seq<(Seq<char>, Seq<Seq<char>>, Option<Seq<u8>>)>,
    idx: Seq<int>,
    es: Seq<ZipEntry>,
    comps: Seq<Seq<PathPart>>,
    present: Seq<Seq<char>>,
) -> bool {
    &&& idx.len() == ws.len()
    &&& forall|i: int| 0 <= i < idx.len() ==> 0 <= #[trigger] idx[i] < comps.len()
    &&& forall|i: int, j: int| 0 <= i < j < idx.len() ==> #[trigger] idx[i] < #[trigger] idx[j]
    &&& forall|i: int| 0 <= i < idx.len() ==> entry_write(es, comps, present, idx[i]) == Some(#[trigger] ws[i])
}

proof fn target_positions(es: Seq<ZipEntry>, comps: Seq<Seq<PathPart>>, present: Seq<Seq<char>>) -> (idx: Seq<int>)
    ensures
        drawn_from_targets(planned_writes(es, comps, present), idx, es, comps, present),
    decreases comps.len(),
{
    let all = planned_writes(es, comps, present);
    if comps.len() == 0 {
        let idx: Seq<int> = seq![];
        assert(all.len() == 0);
        idx
    } else {
        let short = comps.drop_last();
        let prev_idx = target_positions(es, short, present);
        let k = comps.len() - 1;
        let prev = planned_writes(es, short, present);
        assert forall|i: int| 0 <= i < prev_idx.len() implies
            entry_write(es, comps, present, prev_idx[i]) == Some(#[trigger] prev[i]) by {
            assert(0 <= prev_idx[i] < short.len());
            assert(short[prev_idx[i]] == comps[prev_idx[i]]);
            assert(entry_write(es, short, present, prev_idx[i]) == Some(prev[i]));
        }
        if entry_target(es[k].name, comps.last(), present) is Some {
            let idx = prev_idx.push(k);
            assert(all == prev.push(write_for(es[k], entry_target(es[k].name, comps.last(), present)->0)));
            assert forall|i: int| 0 <= i < idx.len() implies entry_write(es, comps, present, idx[i]) == Some(#[trigger] all[i]) by {
                if i < prev_idx.len() {
                    assert(idx[i] == prev_idx[i]);
                    assert(all[i] == prev[i]);
                }
            }
            assert forall|i: int, j: int| 0 <= i < j < idx.len() implies #[trigger] idx[i] < #[trigger] idx[j] by {
                assert(idx[i] == prev_idx[i]);
                assert(0 <= prev_idx[i] < short.len());
                if j < prev_idx.len() {
                    assert(idx[j] == prev_idx[j]);
                }
            }
            assert forall|i: int| 0 <= i < idx.len() implies 0 <= #[trigger] idx[i] < comps.len() by {
                if i < prev_idx.len() {
                    assert(idx[i] == prev_idx[i]);
                    assert(0 <= prev_idx[i] < short.len());
                }
            }
            idx
        } else {
            assert(all == prev);
            assert forall|i: int| 0 <= i < prev_idx.len() implies 0 <= #[trigger] prev_idx[i] < comps.len() by {
                assert(0 <= prev_idx[i] < short.len());
            }
            prev_idx
        }
    }
}

/// Goes through the archive's entries in order and collects the writes that
/// install each creator skill not yet present (see [`plan_entry`]), stopping
/// at the first entry that cannot be looked up or whose content, when
/// needed, cannot be read. A file entry's parent directory is made before
/// its content is read, so an entry whose content fails still leaves that
/// directory as its last write.
pub fn creator_skill_writes(archive: Vec<u8>, present: &Vec<String>) -> (r: Extraction)
    ensures
        match zip_open(archive@) {
            Err(t) => r.writes@.len() == 0 && (r.error matches Some(ArchiveError::Open(s)) && s@ == t),
            Ok(es) => {
                let comps = r.components@;
                let p = texts(present@);
                let done = r.writes@.map_values(|w: SkillWrite| write_view(w));
                &&& comps.len() <= es.len()
                &&& forall|k: int| 0 <= k < comps.len() ==> components_of(es[k].name, #[trigger] comps[k])
                &&& match r.error {
                    None => {
                        &&& comps.len() == es.len()
                        &&& forall|k: int| 0 <= k < comps.len() ==> entry_passes(es[k], #[trigger] comps[k], p)
                        &&& done == planned_writes(es, comps, p)
                    },
                    Some(ArchiveError::Open(_)) => false,
                    Some(ArchiveError::EntryName(s)) => {
                        &&& comps.len() < es.len()
                        &&& forall|k: int| 0 <= k < comps.len() ==> entry_passes(es[k], #[trigger] comps[k], p)
                        &&& es[comps.len() as int].lookup == Err::<(), Seq<char>>(s@)
                        &&& done == planned_writes(es, comps, p)
                    },
                    Some(ArchiveError::EntryContent(s)) => {
                        &&& comps.len() > 0
                        &&& forall|k: int| 0 <= k < comps.len() - 1 ==> entry_passes(es[k], #[trigger] comps[k], p)
                        &&& es[comps.len() - 1].lookup is Ok
                        &&& es[comps.len() - 1].content == Err::<Seq<u8>, Seq<char>>(s@)
                        &&& (entry_target(es[comps.len() - 1].name, comps.last(), p) matches Some((skill, rest, is_dir))
                            && !is_dir
                            && done == planned_writes(es, comps.drop_last(), p).push((skill, rest.drop_last(), None)))
                    },
                }
                &&& forall|i: int| 0 <= i < done.len() ==> stays_inside(#[trigger] done[i])
            },
        },
{
    let mut writes: Vec<SkillWrite> = Vec::new();
    let mut a = match open_archive(archive) {
        Ok(a) => a,
        Err(e) => {
            let none_read: Ghost<Seq<Seq<PathPart>>> = Ghost(Seq::empty());
            return Extraction { writes, error: Some(ArchiveError::Open(e)), components: none_read };
        },
    };
    let ghost es = zip_entries(a);
    let ghost p = texts(present@);
    let n = archive_len(&a);
    let ghost mut comps: Seq<Seq<PathPart>> = seq![];
    let mut i: usize = 0;
    assert(writes@.map_values(|w: SkillWrite| write_view(w)) =~= planned_writes(es, comps, p));
    while i < n
        invariant
            i <= n,
            n == es.len(),
            zip_entries(a) == es,
            zip_open(archive@) == Ok::<Seq<ZipEntry>, Seq<char>>(es),
            p == texts(present@),
            comps.len() == i,
            forall|k: int| 0 <= k < comps.len() ==> components_of(es[k].name, #[trigger] comps[k]),
            forall|k: int| 0 <= k < comps.len() ==> entry_passes(es[k], #[trigger] comps[k], p),
            writes@.map_values(|w: SkillWrite| write_view(w)) == planned_writes(es, comps, p),
            comps.len() <= es.len(),
        decreases n - i,
    {
        let name = match entry_name(&mut a, i) {
            Ok(s) => s,
            Err(e) => {
                proof { lemma_planned_writes_inside(es, comps, p); }
                let read: Ghost<Seq<Seq<PathPart>>> = Ghost(comps);
                return Extraction { writes, error: Some(ArchiveError::EntryName(e)), components: read };
            },
        };
        let parts = path_parts(name.as_str());
        let ghost before = writes@;
        let ghost old_comps = comps;
        proof {
            comps = comps.push(parts@);
            assert(comps.drop_last() =~= old_comps);
            assert(comps[i as int] == parts@);
        }
        match plan_entry(name.as_str(), &parts, present) {
            None => {},
            Some(t) => {
                if t.is_dir {
                    writes.push(SkillWrite::Dir { skill: t.skill, rest: t.rest });
                } else {
                    match entry_bytes(&mut a, i) {
                        Ok(bytes) => {
                            writes.push(SkillWrite::File { skill: t.skill, rest: t.rest, bytes });
                        },
                        Err(e) => {
                            proof {
                                law_installed_entry_stays_inside(name@, parts@, p);
                                lemma_planned_writes_inside(es, old_comps, p);
                            }
                            let ghost full_rest = t.rest@;
                            let mut parent = t.rest;
                            parent.pop();
                            assert(texts(parent@) =~= texts(full_rest).drop_last());
                            writes.push(SkillWrite::Dir { skill: t.skill, rest: parent });
                            assert(writes@.map_values(|w: SkillWrite| write_view(w))
                                =~= before.map_values(|w: SkillWrite| write_view(w)).push(write_view(writes@.last())));
                            let ghost done = writes@.map_values(|w: SkillWrite| write_view(w));
                            assert forall|q: int| 0 <= q < done.len() implies stays_inside(#[trigger] done[q]) by {
                                if q < before.len() {
                                    assert(done[q] == planned_writes(es, old_comps, p)[q]);
                                } else {
                                    let (sk, rs, d) = entry_target(name@, parts@, p)->0;
                                    assert(done[q] == (sk, rs.drop_last(), None::<Seq<u8>>));
                                    assert forall|j: int| 0 <= j < rs.drop_last().len() implies single_piece(#[trigger] rs.drop_last()[j]) by {
                                        assert(rs.drop_last()[j] == rs[j]);
                                    }
                                }
                            }
                            let read: Ghost<Seq<Seq<PathPart>>> = Ghost(comps);
                            return Extraction { writes, error: Some(ArchiveError::EntryContent(e)), components: read };
                        },
                    }
                }
                assert(writes@.map_values(|w: SkillWrite| write_view(w))
                    =~= before.map_values(|w: SkillWrite| write_view(w)).push(write_view(writes@.last())));
            },
        }
        i = i + 1;
    }
    proof { lemma_planned_writes_inside(es, comps, p); }
    let read: Ghost<Seq<Seq<PathPart>>> = Ghost(comps);
    Extraction { writes, error: None, components: read }
}

} // verus!
