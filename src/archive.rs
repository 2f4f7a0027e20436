//! Zip archives of a directory tree, and the copy that skips links.

use vstd::prelude::*;
use std::io::Cursor;
use std::io::Write;
use zip::result::ZipError;
use zip::write::FileOptions;
use zip::ZipWriter;
use crate::constants::ENTRY_MODE;
use crate::pathname::{chars_of, is_separator, is_separator_char, join, joined, range_equals, Platform};

verus! {

/// A zip archive being written into memory. Verus refuses to declare
/// `ZipWriter` itself (its parameter is bound by std's I/O traits), so the
/// writer is held here, out of Verus's sight.
#[verifier::external_body]
pub struct ZipBuffer {
    writer: ZipWriter<Cursor<Vec<u8>>>,
}

#[verifier::external_type_specification]
#[verifier::external_body]
pub struct ExZipError(ZipError);

/// The entries a zip writer holds so far, in order: name, whether it is a
/// directory, the bytes written to it, how they are stored, and the Unix
/// permission bits it was given.
pub uninterp spec fn zip_entries(w: ZipBuffer) -> Seq<(Seq<char>, bool, Seq<u8>, Method, u32)>;

/// The bytes of the finished archive that holds `entries`, written with this
/// library's fixed entry options and each file's bytes in a single write.
pub uninterp spec fn zip_archive(entries: Seq<(Seq<char>, bool, Seq<u8>, Method, u32)>) -> Seq<u8>;

/// How an entry's bytes are stored.
#[derive(Clone, Copy, Debug, PartialEq, Eq, Structural)]
pub enum Method {
    Stored,
    Deflated,
}

/// An entry of this size is far below the 4 GiB that zip allows without
/// its large-file option, deflate's overhead included.
pub open spec fn fits(bytes: Seq<u8>) -> bool {
    bytes.len() < 0x8000_0000
}

/// The entry being written, if any, is small enough to be closed.
pub open spec fn last_fits(entries: Seq<(Seq<char>, bool, Seq<u8>, Method, u32)>) -> bool {
    entries.len() == 0 || fits(entries.last().2)
}

/// The name a directory entry gets: a slash is added unless one ends it.
pub open spec fn with_slash(name: Seq<char>) -> Seq<char> {
    if name.len() > 0 && (name.last() == '/' || name.last() == '\\') {
        name
    } else {
        name.push('/')
    }
}

/// `data` appended to the bytes of the last entry.
pub open spec fn appended_to_last(
    entries: Seq<(Seq<char>, bool, Seq<u8>, Method, u32)>,
    data: Seq<u8>,
) -> Seq<(Seq<char>, bool, Seq<u8>, Method, u32)> {
    if entries.len() == 0 {
        entries
    } else {
        let last = entries.last();
        entries.update(entries.len() - 1, (last.0, last.1, last.2 + data, last.3, last.4))
    }
}

/// Relies on `ZipWriter::new` over an empty in-memory buffer: a new writer holds no entry.
#[verifier::external_body]
fn new_archive() -> (w: ZipBuffer)
    ensures
        zip_entries(w) == Seq::<(Seq<char>, bool, Seq<u8>, Method, u32)>::empty(),
{
    ZipBuffer { writer: ZipWriter::new(Cursor::new(Vec::new())) }
}

/// Relies on `ZipWriter::start_file`: the entry being written is closed
/// (which fails only above 4 GiB) and a file entry called `name` is appended
/// with the given method and mode; later writes go into it.
#[verifier::external_body]
fn start_file(w: &mut ZipBuffer, name: &str, method: Method, mode: u32) -> (r: Result<(), ZipError>)
    requires
        mode <= 0o777,
    ensures
        last_fits(zip_entries(*old(w))) ==> r is Ok,
        r is Ok ==> zip_entries(*final(w)) == zip_entries(*old(w)).push(
            (name@, false, Seq::empty(), method, mode),
        ),
{
    let method = match method {
        Method::Stored => zip::CompressionMethod::Stored,
        Method::Deflated => zip::CompressionMethod::Deflated,
    };
    let options = FileOptions::default().compression_method(method).unix_permissions(mode);
    w.writer.start_file(name, options)
}

/// Relies on `ZipWriter::add_directory`: the entry being written is closed
/// and a stored directory entry with the given mode is appended, its name
/// ending in a slash.
#[verifier::external_body]
fn add_directory(w: &mut ZipBuffer, name: &str, mode: u32) -> (r: Result<(), ZipError>)
    requires
        mode <= 0o777,
    ensures
        last_fits(zip_entries(*old(w))) ==> r is Ok,
        r is Ok ==> zip_entries(*final(w)) == zip_entries(*old(w)).push(
            (with_slash(name@), true, Seq::empty(), Method::Stored, mode),
        ),
{
    let options = FileOptions::default().unix_permissions(mode);
    w.writer.add_directory(name, options)
}

/// Relies on `Write::write_all` of `ZipWriter`: the bytes become the
/// contents of the file entry just started; a write fails only past 4 GiB.
/// It is called once per entry, so what is compressed, and how, depends on
/// the entries alone.
#[verifier::external_body]
fn write_data(w: &mut ZipBuffer, data: &Vec<u8>) -> (r: Result<(), ZipError>)
    requires
        zip_entries(*old(w)).len() > 0,
        !zip_entries(*old(w)).last().1,
        zip_entries(*old(w)).last().2.len() == 0,
    ensures
        fits(data@) ==> r is Ok,
        r is Ok ==> zip_entries(*final(w)) == appended_to_last(zip_entries(*old(w)), data@),
{
    match w.writer.write_all(data.as_slice()) {
        Ok(()) => Ok(()),
        Err(e) => Err(ZipError::Io(e)),
    }
}

/// Relies on `ZipWriter::finish`: the entry being written is closed and the
/// buffer then holds the whole archive.
#[verifier::external_body]
fn finish_archive(w: &mut ZipBuffer) -> (r: Result<Vec<u8>, ZipError>)
    ensures
        last_fits(zip_entries(*old(w))) ==> r is Ok,
        r matches Ok(b) ==> b@ == zip_archive(zip_entries(*old(w))),
{
    match w.writer.finish() {
        Ok(c) => Ok(c.into_inner()),
        Err(e) => Err(e),
    }
}

/// One path met while walking a tree, with the bytes of a file.
#[derive(Clone, Debug)]
pub struct WalkEntry {
    pub path: String,
    pub is_file: bool,
    pub contents: Vec<u8>,
}

/// One entry to write into an archive.
#[derive(Clone, Debug)]
pub struct ArchiveItem {
    pub name: String,
    pub is_dir: bool,
    pub contents: Vec<u8>,
}

/// Why no archive was made.
#[derive(Clone, Copy, Debug, PartialEq, Eq, Structural)]
pub enum ArchiveError {
    /// The source is not a directory.
    NotADirectory,
    /// A walked path does not lie under the source directory.
    OutsideRoot,
    /// The zip writer failed.
    Write,
}

/// The entry that an item becomes in the archive: files are deflated,
/// directories stored, and every entry gets mode 755.
pub open spec fn item_entry(it: ArchiveItem) -> (Seq<char>, bool, Seq<u8>, Method, u32) {
    if it.is_dir {
        (with_slash(it.name@), true, Seq::empty(), Method::Stored, ENTRY_MODE)
    } else {
        (it.name@, false, it.contents@, Method::Deflated, ENTRY_MODE)
    }
}

/// Every item is small enough to be archived.
pub open spec fn items_fit(items: Seq<ArchiveItem>) -> bool {
    forall|i: int| 0 <= i < items.len() ==> fits(#[trigger] items[i].contents@)
}

/// Every walked file is small enough to be archived.
pub open spec fn walk_fits(walk: Seq<WalkEntry>) -> bool {
    forall|i: int| 0 <= i < walk.len() ==> fits(#[trigger] walk[i].contents@)
}

pub open spec fn item_entries(items: Seq<ArchiveItem>) -> Seq<(Seq<char>, bool, Seq<u8>, Method, u32)> {
    items.map_values(|it: ArchiveItem| item_entry(it))
}

/// `path` relative to `prefix`: empty for `prefix` itself, the rest after a
/// separator for a path under it, and `None` for any other path.
pub open spec fn relative_name(platform: Platform, prefix: Seq<char>, path: Seq<char>) -> Option<
    Seq<char>,
> {
    if path == prefix {
        Some(Seq::empty())
    } else if prefix.len() <= path.len() && path.subrange(0, prefix.len() as int) == prefix {
        if prefix.len() > 0 && is_separator(platform, prefix.last()) {
            Some(path.subrange(prefix.len() as int, path.len() as int))
        } else if prefix.len() < path.len() && is_separator(platform, path[prefix.len() as int]) {
            Some(path.subrange(prefix.len() + 1int, path.len() as int))
        } else {
            None
        }
    } else {
        None
    }
}

/// `s` with every separator written as `/`, as zip names are.
pub open spec fn slashed(platform: Platform, s: Seq<char>) -> Seq<char> {
    Seq::new(s.len(), |i: int| if is_separator(platform, s[i]) { '/' } else { s[i] })
}

/// What one walked path adds to the archive: a file entry, a directory
/// entry, or nothing for the root itself.
pub open spec fn entries_for(platform: Platform, rel: Seq<char>, w: WalkEntry) -> Seq<
    (Seq<char>, bool, Seq<u8>, Method, u32),
> {
    if w.is_file {
        seq![(slashed(platform, rel), false, w.contents@, Method::Deflated, ENTRY_MODE)]
    } else if rel.len() > 0 {
        seq![(with_slash(slashed(platform, rel)), true, Seq::<u8>::empty(), Method::Stored, ENTRY_MODE)]
    } else {
        Seq::empty()
    }
}

/// Every walked path lies under `prefix`.
pub open spec fn within(platform: Platform, prefix: Seq<char>, walk: Seq<WalkEntry>) -> bool {
    forall|i: int| 0 <= i < walk.len() ==> relative_name(platform, prefix, #[trigger] walk[i].path@) is Some
}

/// The archive's entries for a walk of the tree at `prefix`, in walk order.
pub open spec fn archive_entries(platform: Platform, prefix: Seq<char>, walk: Seq<WalkEntry>) -> Seq<
    (Seq<char>, bool, Seq<u8>, Method, u32),
>
    decreases walk.len(),
{
    if walk.len() == 0 {
        Seq::empty()
    } else {
        archive_entries(platform, prefix, walk.drop_last()) + match relative_name(
            platform,
            prefix,
            walk.last().path@,
        ) {
            Some(rel) => entries_for(platform, rel, walk.last()),
            None => Seq::empty(),
        }
    }
}

/// Every walked file under the root is among the archive's entries, under
/// its relative name written with slashes, and with its bytes.
pub proof fn lemma_walked_files_archived(
    platform: Platform,
    prefix: Seq<char>,
    walk: Seq<WalkEntry>,
    i: int,
)
    requires
        0 <= i < walk.len(),
        walk[i].is_file,
        relative_name(platform, prefix, walk[i].path@) is Some,
    ensures
        exists|j: int|
            0 <= j < archive_entries(platform, prefix, walk).len() && #[trigger] archive_entries(
                platform,
                prefix,
                walk,
            )[j] == (
                slashed(platform, relative_name(platform, prefix, walk[i].path@)->0),
                false,
                walk[i].contents@,
                Method::Deflated,
                ENTRY_MODE,
            ),
    decreases walk.len(),
{
    let all = archive_entries(platform, prefix, walk);
    let prev = archive_entries(platform, prefix, walk.drop_last());
    if i == walk.len() - 1 {
        assert(all[prev.len() as int] == (
            slashed(platform, relative_name(platform, prefix, walk[i].path@)->0),
            false,
            walk[i].contents@,
            Method::Deflated,
            ENTRY_MODE,
        ));
    } else {
        assert(walk.drop_last()[i] == walk[i]);
        lemma_walked_files_archived(platform, prefix, walk.drop_last(), i);
        let j = choose|j: int|
            0 <= j < prev.len() && #[trigger] prev[j] == (
                slashed(platform, relative_name(platform, prefix, walk[i].path@)->0),
                false,
                walk[i].contents@,
                Method::Deflated,
                ENTRY_MODE,
            );
        assert(all[j] == prev[j]);
    }
}

fn slashed_of(platform: Platform, s: &str) -> (r: String)
    ensures
        r@ == slashed(platform, s@),
{
    let chars = chars_of(s);
    let mut r = String::new();
    let mut i: usize = 0;
    while i < chars.len()
        invariant
            chars@ == s@,
            i <= chars.len(),
            r@ == slashed(platform, s@).subrange(0, i as int),
        decreases chars.len() - i,
    {
        if is_separator_char(platform, chars[i]) {
            proof {
                reveal_strlit("/");
            }
            r.append("/");
        } else {
            r.append(s.substring_char(i, i + 1));
        }
        i = i + 1;
        assert(r@ =~= slashed(platform, s@).subrange(0, i as int));
    }
    assert(slashed(platform, s@).subrange(0, i as int) =~= slashed(platform, s@));
    r
}

/// `path` relative to `prefix`, where it lies under it.
pub fn relative_of(platform: Platform, prefix: &str, path: &str) -> (r: Option<String>)
    ensures
        opt_chars(r) == relative_name(platform, prefix@, path@),
{
    let pc = chars_of(prefix);
    let qc = chars_of(path);
    let n = pc.len();
    let m = qc.len();
    assert(qc@.subrange(0, m as int) =~= qc@);
    if n == m && range_equals(&qc, 0, m, &pc) {
        return Some(String::new());
    }
    if n <= m && range_equals(&qc, 0, n, &pc) {
        if n > 0 && is_separator_char(platform, pc[n - 1]) {
            return Some(String::from_str(path.substring_char(n, m)));
        } else if n < m && is_separator_char(platform, qc[n]) {
            return Some(String::from_str(path.substring_char(n + 1, m)));
        }
    }
    None
}

pub open spec fn opt_chars(o: Option<String>) -> Option<Seq<char>> {
    match o {
        Some(s) => Some(s@),
        None => None,
    }
}

proof fn lemma_archive_entries_step(
    platform: Platform,
    prefix: Seq<char>,
    walk: Seq<WalkEntry>,
    i: int,
)
    requires
        0 <= i < walk.len(),
    ensures
        archive_entries(platform, prefix, walk.subrange(0, i + 1)) == archive_entries(
            platform,
            prefix,
            walk.subrange(0, i),
        ) + match relative_name(platform, prefix, walk[i].path@) {
            Some(rel) => entries_for(platform, rel, walk[i]),
            None => Seq::empty(),
        },
{
    assert(walk.subrange(0, i + 1).drop_last() =~= walk.subrange(0, i));
}

/// The items to archive for a walk of the tree at `prefix`: each file under
/// its relative name, each directory but the root with its own entry.
/// Fails where a walked path does not lie under `prefix`.
pub fn plan_archive(platform: Platform, prefix: &str, walk: &Vec<WalkEntry>) -> (r: Result<
    Vec<ArchiveItem>,
    ArchiveError,
>)
    ensures
        r is Ok <==> within(platform, prefix@, walk@),
        r matches Ok(items) ==> item_entries(items@) == archive_entries(platform, prefix@, walk@),
        r matches Ok(items) ==> (walk_fits(walk@) ==> items_fit(items@)),
        r matches Err(e) ==> e == ArchiveError::OutsideRoot,
{
    let mut items: Vec<ArchiveItem> = Vec::new();
    let mut i: usize = 0;
    while i < walk.len()
        invariant
            i <= walk.len(),
            within(platform, prefix@, walk@.subrange(0, i as int)),
            item_entries(items@) == archive_entries(platform, prefix@, walk@.subrange(0, i as int)),
            walk_fits(walk@) ==> items_fit(items@),
        decreases walk.len() - i,
    {
        proof {
            lemma_archive_entries_step(platform, prefix@, walk@, i as int);
        }
        let w = &walk[i];
        let rel = match relative_of(platform, prefix, w.path.as_str()) {
            Some(rel) => rel,
            None => {
                assert(!within(platform, prefix@, walk@));
                return Err(ArchiveError::OutsideRoot);
            },
        };
        let ghost before = items@;
        if w.is_file {
            items.push(
                ArchiveItem {
                    name: slashed_of(platform, rel.as_str()),
                    is_dir: false,
                    contents: w.contents.clone(),
                },
            );
            assert(item_entries(items@) =~= item_entries(before) + entries_for(platform, rel@, *w));
        } else if rel.as_str().unicode_len() > 0 {
            items.push(
                ArchiveItem {
                    name: slashed_of(platform, rel.as_str()),
                    is_dir: true,
                    contents: Vec::new(),
                },
            );
            assert(item_entries(items@) =~= item_entries(before) + entries_for(platform, rel@, *w));
        } else {
            assert(item_entries(items@) =~= item_entries(before) + entries_for(platform, rel@, *w));
        }
        i = i + 1;
        assert(within(platform, prefix@, walk@.subrange(0, i as int))) by {
            assert forall|k: int| 0 <= k < i implies relative_name(
                platform,
                prefix@,
                #[trigger] walk@.subrange(0, i as int)[k].path@,
            ) is Some by {
                if k < i - 1 {
                    assert(walk@.subrange(0, i as int)[k] == walk@.subrange(0, i - 1)[k]);
                }
            }
        }
    }
    assert(walk@.subrange(0, i as int) =~= walk@);
    Ok(items)
}

/// The last entry of the items written so far is small enough to be closed.
proof fn lemma_prefix_last_fits(items: Seq<ArchiveItem>, i: int)
    requires
        0 <= i <= items.len(),
        items_fit(items),
    ensures
        last_fits(item_entries(items.subrange(0, i))),
{
    if i > 0 {
        assert(item_entries(items.subrange(0, i)).last() == item_entry(items[i - 1]));
        assert(fits(items[i - 1].contents@));
    }
}

/// Writes `items` into a new archive and returns its bytes: files deflated,
/// directories stored, each with mode 755. Succeeds wherever every item fits.
pub fn write_archive(items: &Vec<ArchiveItem>) -> (r: Result<Vec<u8>, ArchiveError>)
    ensures
        items_fit(items@) ==> r is Ok,
        r matches Ok(b) ==> b@ == zip_archive(item_entries(items@)),
        r matches Err(e) ==> e == ArchiveError::Write,
{
    let mut w = new_archive();
    let mut i: usize = 0;
    while i < items.len()
        invariant
            i <= items.len(),
            zip_entries(w) == item_entries(items@.subrange(0, i as int)),
        decreases items.len() - i,
    {
        proof {
            if items_fit(items@) {
                lemma_prefix_last_fits(items@, i as int);
            }
        }
        let it = &items[i];
        if it.is_dir {
            if add_directory(&mut w, it.name.as_str(), ENTRY_MODE).is_err() {
                return Err(ArchiveError::Write);
            }
        } else {
            if start_file(&mut w, it.name.as_str(), Method::Deflated, ENTRY_MODE).is_err() {
                return Err(ArchiveError::Write);
            }
            assert(items_fit(items@) ==> fits(items@[i as int].contents@));
            if write_data(&mut w, &it.contents).is_err() {
                return Err(ArchiveError::Write);
            }
            assert(Seq::<u8>::empty() + it.contents@ =~= it.contents@);
        }
        i = i + 1;
        assert(zip_entries(w) =~= item_entries(items@.subrange(0, i as int)));
    }
    assert(items@.subrange(0, i as int) =~= items@);
    proof {
        if items_fit(items@) {
            lemma_prefix_last_fits(items@, i as int);
        }
    }
    match finish_archive(&mut w) {
        Ok(b) => Ok(b),
        Err(_) => Err(ArchiveError::Write),
    }
}

/// The archive of a walk of the tree at `prefix`: each file deflated under
/// its relative name, each directory but the root stored, all with mode 755.
/// Succeeds wherever every walked path lies under `prefix` and every file fits.
pub fn zip_dir(platform: Platform, prefix: &str, walk: &Vec<WalkEntry>) -> (r: Result<
    Vec<u8>,
    ArchiveError,
>)
    ensures
        !within(platform, prefix@, walk@) ==> r == Err::<Vec<u8>, ArchiveError>(
            ArchiveError::OutsideRoot,
        ),
        within(platform, prefix@, walk@) && walk_fits(walk@) ==> r is Ok,
        r matches Ok(b) ==> within(platform, prefix@, walk@) && b@ == zip_archive(
            archive_entries(platform, prefix@, walk@),
        ),
        within(platform, prefix@, walk@) ==> (r matches Err(e) ==> e == ArchiveError::Write),
{
    let items = match plan_archive(platform, prefix, walk) {
        Ok(items) => items,
        Err(e) => return Err(e),
    };
    write_archive(&items)
}

/// The archive of the tree at `src_dir`, walked as `walk`; fails at once
/// where `src_dir` is not a directory.
pub fn create_backup(
    platform: Platform,
    src_dir: &str,
    src_is_dir: bool,
    walk: &Vec<WalkEntry>,
) -> (r: Result<Vec<u8>, ArchiveError>)
    ensures
        !src_is_dir ==> r == Err::<Vec<u8>, ArchiveError>(ArchiveError::NotADirectory),
        src_is_dir && !within(platform, src_dir@, walk@) ==> r == Err::<Vec<u8>, ArchiveError>(
            ArchiveError::OutsideRoot,
        ),
        src_is_dir && within(platform, src_dir@, walk@) && walk_fits(walk@) ==> r is Ok,
        r matches Ok(b) ==> src_is_dir && within(platform, src_dir@, walk@) && b@ == zip_archive(
            archive_entries(platform, src_dir@, walk@),
        ),
        src_is_dir && within(platform, src_dir@, walk@) ==> (r matches Err(e) ==> e
            == ArchiveError::Write),
{
    if !src_is_dir {
        return Err(ArchiveError::NotADirectory);
    }
    zip_dir(platform, src_dir, walk)
}

/// What a directory's child is, links not followed.
#[derive(Clone, Copy, Debug, PartialEq, Eq, Structural)]
pub enum ChildKind {
    File,
    Dir,
    Symlink,
}

/// One child of a directory.
#[derive(Clone, Debug)]
pub struct Child {
    pub name: String,
    pub kind: ChildKind,
}

/// One step of a copy: a file to copy, or a directory to copy into.
#[derive(Clone, Debug)]
pub struct CopyOp {
    pub from: String,
    pub to: String,
    pub is_dir: bool,
}

/// The steps that copy the children of `source` into `destination`: each
/// file and directory under the same name, each link left out.
pub open spec fn copy_ops(
    platform: Platform,
    source: Seq<char>,
    destination: Seq<char>,
    children: Seq<Child>,
) -> Seq<(Seq<char>, Seq<char>, bool)>
    decreases children.len(),
{
    if children.len() == 0 {
        Seq::empty()
    } else {
        let rest = copy_ops(platform, source, destination, children.drop_last());
        let c = children.last();
        if c.kind == ChildKind::Symlink {
            rest
        } else {
            rest.push(
                (
                    joined(platform, source, c.name@),
                    joined(platform, destination, c.name@),
                    c.kind == ChildKind::Dir,
                ),
            )
        }
    }
}

/// Appending different names to one base gives different paths.
proof fn lemma_joined_injective(platform: Platform, base: Seq<char>, a: Seq<char>, b: Seq<char>)
    requires
        joined(platform, base, a) == joined(platform, base, b),
    ensures
        a == b,
{
    let x = joined(platform, base, Seq::empty());
    assert(joined(platform, base, a) =~= x + a);
    assert(joined(platform, base, b) =~= x + b);
    assert((x + a).subrange(x.len() as int, (x + a).len() as int) =~= a);
    assert((x + b).subrange(x.len() as int, (x + b).len() as int) =~= b);
}

/// No two children share a name, as in any directory listing.
pub open spec fn names_distinct(children: Seq<Child>) -> bool {
    forall|a: int, b: int| 0 <= a < b < children.len() ==> children[a].name@ != children[b].name@
}

/// Each copy step comes from a file or a directory among `children`, under
/// its own name.
pub proof fn lemma_copy_steps_from_children(
    platform: Platform,
    source: Seq<char>,
    destination: Seq<char>,
    children: Seq<Child>,
)
    ensures
        forall|k: int|
            0 <= k < copy_ops(platform, source, destination, children).len() ==> exists|i: int|
                0 <= i < children.len() && children[i].kind != ChildKind::Symlink && #[trigger] copy_ops(
                    platform,
                    source,
                    destination,
                    children,
                )[k] == (
                    joined(platform, source, children[i].name@),
                    joined(platform, destination, children[i].name@),
                    children[i].kind == ChildKind::Dir,
                ),
    decreases children.len(),
{
    let ops = copy_ops(platform, source, destination, children);
    if children.len() > 0 {
        let d = children.drop_last();
        lemma_copy_steps_from_children(platform, source, destination, d);
        let prev = copy_ops(platform, source, destination, d);
        assert forall|k: int| 0 <= k < ops.len() implies exists|i: int|
            0 <= i < children.len() && children[i].kind != ChildKind::Symlink && #[trigger] ops[k] == (
                joined(platform, source, children[i].name@),
                joined(platform, destination, children[i].name@),
                children[i].kind == ChildKind::Dir,
            ) by {
            if k < prev.len() {
                assert(ops[k] == prev[k]);
                let i = choose|i: int|
                    0 <= i < d.len() && d[i].kind != ChildKind::Symlink && #[trigger] prev[k] == (
                        joined(platform, source, d[i].name@),
                        joined(platform, destination, d[i].name@),
                        d[i].kind == ChildKind::Dir,
                    );
                assert(children[i] == d[i]);
            } else {
                assert(ops[k] == (
                    joined(platform, source, children[children.len() - 1].name@),
                    joined(platform, destination, children[children.len() - 1].name@),
                    children[children.len() - 1].kind == ChildKind::Dir,
                ));
            }
        }
    }
}

/// A child that is a link is left out of the copy: no step writes to its
/// name in the destination, nor reads from it in the source.
pub proof fn lemma_link_child_not_copied(
    platform: Platform,
    source: Seq<char>,
    destination: Seq<char>,
    children: Seq<Child>,
    s: int,
)
    requires
        names_distinct(children),
        0 <= s < children.len(),
        children[s].kind == ChildKind::Symlink,
    ensures
        forall|k: int|
            0 <= k < copy_ops(platform, source, destination, children).len() ==> (#[trigger] copy_ops(
                platform,
                source,
                destination,
                children,
            )[k]).1 != joined(platform, destination, children[s].name@) && copy_ops(
                platform,
                source,
                destination,
                children,
            )[k].0 != joined(platform, source, children[s].name@),
{
    let ops = copy_ops(platform, source, destination, children);
    lemma_copy_steps_from_children(platform, source, destination, children);
    assert forall|k: int| 0 <= k < ops.len() implies (#[trigger] ops[k]).1 != joined(
        platform,
        destination,
        children[s].name@,
    ) && ops[k].0 != joined(platform, source, children[s].name@) by {
        let i = choose|i: int|
            0 <= i < children.len() && children[i].kind != ChildKind::Symlink && #[trigger] ops[k] == (
                joined(platform, source, children[i].name@),
                joined(platform, destination, children[i].name@),
                children[i].kind == ChildKind::Dir,
            );
        assert(i != s);
        if ops[k].1 == joined(platform, destination, children[s].name@) {
            lemma_joined_injective(platform, destination, children[i].name@, children[s].name@);
        }
        if ops[k].0 == joined(platform, source, children[s].name@) {
            lemma_joined_injective(platform, source, children[i].name@, children[s].name@);
        }
        if i < s {
            assert(children[i].name@ != children[s].name@);
        } else {
            assert(children[s].name@ != children[i].name@);
        }
    }
}

pub open spec fn op_views(ops: Seq<CopyOp>) -> Seq<(Seq<char>, Seq<char>, bool)> {
    ops.map_values(|o: CopyOp| (o.from@, o.to@, o.is_dir))
}

/// Plans one level of a recursive copy: links are skipped, directories are
/// descended into, files are copied.
pub fn plan_copy(platform: Platform, source: &str, destination: &str, children: &Vec<Child>) -> (r:
    Vec<CopyOp>)
    ensures
        op_views(r@) == copy_ops(platform, source@, destination@, children@),
{
    let mut ops: Vec<CopyOp> = Vec::new();
    let mut i: usize = 0;
    while i < children.len()
        invariant
            i <= children.len(),
            op_views(ops@) == copy_ops(platform, source@, destination@, children@.subrange(0, i as int)),
        decreases children.len() - i,
    {
        assert(children@.subrange(0, i + 1).drop_last() =~= children@.subrange(0, i as int));
        let c = &children[i];
        let ghost before = ops@;
        match c.kind {
            ChildKind::Symlink => {},
            ChildKind::Dir => {
                ops.push(
                    CopyOp {
                        from: join(platform, source, c.name.as_str()),
                        to: join(platform, destination, c.name.as_str()),
                        is_dir: true,
                    },
                );
            },
            ChildKind::File => {
                ops.push(
                    CopyOp {
                        from: join(platform, source, c.name.as_str()),
                        to: join(platform, destination, c.name.as_str()),
                        is_dir: false,
                    },
                );
            },
        }
        assert(op_views(ops@) =~= copy_ops(
            platform,
            source@,
            destination@,
            children@.subrange(0, i + 1),
        ));
        i = i + 1;
    }
    assert(children@.subrange(0, i as int) =~= children@);
    ops
}

} // verus!
