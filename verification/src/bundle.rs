//! The embedded application bundle: a zip archive read through the `zip`
//! crate, whose entries are checked to stay inside the install directory.
use std::io::Cursor;
use std::io::Read;

use vstd::prelude::*;
use vstd::string::*;

use zip::ZipArchive;

use crate::paths::{is_sep, join_path, path_join};
use crate::text::{has_char, has_prefix, join2, join3, join4};

verus! {

#[verifier::external_type_specification]
#[verifier::external_body]
#[verifier::reject_recursive_types(R)]
pub struct ExZipArchive<R>(ZipArchive<R>);

#[verifier::external_type_specification]
#[verifier::external_body]
#[verifier::reject_recursive_types(T)]
pub struct ExCursor<T>(Cursor<T>);

/// An archive read from an in-memory copy of the bundle.
pub type Archive = ZipArchive<Cursor<Vec<u8>>>;

/// Name of the file names, in archive order, that `zip::ZipArchive::new`
/// reads from the central directory of `bytes`; `None` when it refuses them.
pub uninterp spec fn zip_archive_names(bytes: Seq<u8>) -> Option<Seq<Seq<char>>>;

/// Name of the file names an opened archive holds, in archive order.
pub uninterp spec fn zip_entry_names(a: Archive) -> Seq<Seq<char>>;

/// Calls `zip::ZipArchive::new` on a copy of `bytes`. Claims: it succeeds
/// exactly when the bytes hold an archive the crate reads, and the archive
/// then holds the names read from them. The error's text is left unsaid.
#[verifier::external_body]
fn zip_open(bytes: &[u8]) -> (r: Result<Archive, String>)
    ensures
        r is Ok <==> zip_archive_names(bytes@) is Some,
        r matches Ok(a) ==> zip_archive_names(bytes@) == Some(zip_entry_names(a)),
{
    ZipArchive::new(Cursor::new(bytes.to_vec())).map_err(|e| e.to_string())
}

/// Calls `zip::ZipArchive::len`: the number of entries.
#[verifier::external_body]
fn zip_len(a: &Archive) -> (n: usize)
    ensures
        n == zip_entry_names(*a).len(),
{
    a.len()
}

/// What `by_index` tells of one entry: its name and its `enclosed_name`.
pub struct ZipEntryName {
    pub name: String,
    pub enclosed: Option<String>,
}

/// Name of what `zip::ZipArchive::by_index` gives for entry `i` of an opened
/// archive: the entry's file name, or `None` when the entry cannot be read
/// (an unsupported compression method, an encrypted entry, a corrupt header).
pub uninterp spec fn zip_entry_read(a: Archive, i: int) -> Option<Seq<char>>;

/// Name of the decompressed contents of entry `i` of an opened archive, as
/// `by_index` followed by `Read::read_to_end` gives them; `None` when either
/// fails.
pub uninterp spec fn zip_entry_content(a: Archive, i: int) -> Option<Seq<u8>>;

/// `n`, taken as `/`-separated parts, never climbs above where it starts:
/// walking the parts with a depth that a name raises and `..` lowers (empty
/// parts and `.` leave it), `..` is never met at depth 0. This is the rule of
/// `zip`'s `enclosed_name` over `/`-separated parts.
pub open spec fn stays_inside(n: Seq<char>) -> bool {
    stays_inside_from(seq![], n, 0)
}

/// The walk of `stays_inside`: `part` is the part read so far, `rest` what
/// follows, `depth` the parts entered before `part`.
pub open spec fn stays_inside_from(part: Seq<char>, rest: Seq<char>, depth: nat) -> bool
    decreases rest.len(),
{
    if rest.len() == 0 {
        part_fits(part, depth)
    } else if rest[0] == '/' {
        part_fits(part, depth) && stays_inside_from(seq![], rest.drop_first(), depth_after(part, depth))
    } else {
        stays_inside_from(part.push(rest[0]), rest.drop_first(), depth)
    }
}

/// A part fits unless it is `..` at depth 0.
pub open spec fn part_fits(part: Seq<char>, depth: nat) -> bool {
    !(part == seq!['.', '.'] && depth == 0)
}

/// The depth after a part.
pub open spec fn depth_after(part: Seq<char>, depth: nat) -> nat {
    if part == seq!['.', '.'] {
        (depth - 1) as nat
    } else if part.len() == 0 || part == seq!['.'] {
        depth
    } else {
        depth + 1
    }
}

/// A name that every platform's path rules split at `/` alone: no `\`, no
/// `:` (no drive or device prefix), no NUL and no leading `/`.
pub open spec fn portable_name(n: Seq<char>) -> bool {
    !has_char(n, '\\') && !has_char(n, ':') && !has_char(n, '\0') && !(n.len() > 0 && n[0] == '/')
}

/// Calls `zip::ZipArchive::by_index` and hands out the entry's `name` and
/// `enclosed_name`. Claims: the archive's names and entries stay; the call
/// succeeds exactly when the named read does, and the name is the archive's
/// `i`-th; `enclosed_name`, when given, is the name itself. It is refused for
/// a name holding NUL, starting with `/` or climbing out with a leading `..`,
/// and for a name without `\` that does not stay inside; it is given for a
/// portable name that stays inside. For names with `\` or `:` the answer
/// follows the platform's path rules and is left unsaid.
#[verifier::external_body]
fn zip_entry(a: &mut Archive, i: usize) -> (r: Result<ZipEntryName, String>)
    requires
        i < zip_entry_names(*old(a)).len(),
    ensures
        zip_entry_names(*final(a)) == zip_entry_names(*old(a)),
        forall|k: int| #[trigger] zip_entry_read(*final(a), k) == zip_entry_read(*old(a), k),
        forall|k: int| #[trigger] zip_entry_content(*final(a), k) == zip_entry_content(*old(a), k),
        r is Ok <==> zip_entry_read(*old(a), i as int) is Some,
        r matches Ok(e) ==> zip_entry_read(*old(a), i as int) == Some(e.name@),
        r matches Ok(e) ==> e.name@ == zip_entry_names(*old(a))[i as int],
        r matches Ok(e) ==> (e.enclosed matches Some(p) ==> p@ == e.name@),
        r matches Ok(e) ==> (has_char(e.name@, '\0') ==> e.enclosed is None),
        r matches Ok(e) ==> (e.name@.len() > 0 && e.name@[0] == '/' ==> e.enclosed is None),
        r matches Ok(e) ==> (e.name@ == seq!['.', '.'] || has_prefix(e.name@, seq!['.', '.', '/'])
            ==> e.enclosed is None),
        r matches Ok(e) ==> (!has_char(e.name@, '\\') && !stays_inside(e.name@) ==> e.enclosed
            is None),
        r matches Ok(e) ==> (portable_name(e.name@) && stays_inside(e.name@) ==> e.enclosed
            is Some),
{
    let f = a.by_index(i).map_err(|e| e.to_string())?;
    Ok(
        ZipEntryName {
            name: f.name().to_string(),
            enclosed: f.enclosed_name().map(|p| p.to_string_lossy().into_owned()),
        },
    )
}

/// Calls `zip::ZipArchive::by_index` and reads the entry to its end with
/// `Read::read_to_end`. Claims: the archive's names and entries stay, and the
/// read succeeds exactly when the named contents exist, giving them. The
/// error's text is left unsaid.
#[verifier::external_body]
fn zip_entry_data(a: &mut Archive, i: usize) -> (r: Result<Vec<u8>, String>)
    requires
        i < zip_entry_names(*old(a)).len(),
    ensures
        zip_entry_names(*final(a)) == zip_entry_names(*old(a)),
        forall|k: int| #[trigger] zip_entry_read(*final(a), k) == zip_entry_read(*old(a), k),
        forall|k: int| #[trigger] zip_entry_content(*final(a), k) == zip_entry_content(*old(a), k),
        r is Ok <==> zip_entry_content(*old(a), i as int) is Some,
        r matches Ok(d) ==> zip_entry_content(*old(a), i as int) == Some(d@),
{
    let mut f = a.by_index(i).map_err(|e| e.to_string())?;
    let mut buf = Vec::new();
    f.read_to_end(&mut buf).map_err(|e| e.to_string())?;
    Ok(buf)
}

pub const MSG_NOT_EMBEDDED: &'static str =
    "安装包未嵌入，请先执行打包脚本生成 app-bundle.zip 后重新编译安装器";

pub const MSG_READ_BUNDLE: &'static str = "读取安装包失败: ";

pub const MSG_READ_ENTRY: &'static str = "读取安装包条目失败: ";

pub const MSG_BAD_ENTRY: &'static str = "安装包含非法路径条目: ";

/// The embedded bundle, refused when the build embedded an empty placeholder.
pub fn embedded_bundle<'a>(embedded: &'a [u8]) -> (r: Result<&'a [u8], String>)
    ensures
        embedded@.len() == 0 ==> (r matches Err(e) && e@ == MSG_NOT_EMBEDDED@),
        embedded@.len() > 0 ==> (r matches Ok(b) && b@ == embedded@),
{
    if embedded.len() == 0 {
        Err(String::from_str(MSG_NOT_EMBEDDED))
    } else {
        Ok(embedded)
    }
}

/// Opens the bundle.
pub fn open_bundle(bytes: &[u8]) -> (r: Result<Archive, String>)
    ensures
        r is Ok <==> zip_archive_names(bytes@) is Some,
        r matches Ok(a) ==> zip_archive_names(bytes@) == Some(zip_entry_names(a)),
        r matches Err(e) ==> has_prefix(e@, MSG_READ_BUNDLE@),
{
    match zip_open(bytes) {
        Ok(a) => Ok(a),
        Err(e) => {
            let m = join2(MSG_READ_BUNDLE, e.as_str());
            assert(m@.subrange(0, MSG_READ_BUNDLE@.len() as int) =~= MSG_READ_BUNDLE@);
            Err(m)
        },
    }
}

/// The number of entries of an opened bundle.
pub fn entry_count(a: &Archive) -> (n: usize)
    ensures
        n == zip_entry_names(*a).len(),
{
    zip_len(a)
}

/// `zip`'s `is_dir`: a name ending in a separator is a directory.
pub open spec fn names_dir(name: Seq<char>) -> bool {
    name.len() > 0 && is_sep(name.last())
}

/// One bundle entry to extract: its destination inside the install
/// directory and whether it is a directory.
pub struct BundleEntry {
    pub dest: String,
    pub is_dir: bool,
}

/// Reads entry `i` of the bundle for extraction below `target_dir`. It
/// succeeds when `zip` reads the entry and accepts its name as staying
/// inside the target (see `zip_entry`); an entry whose name could lead
/// outside the target (zip slip) is refused with `安装包含非法路径条目: {name}`,
/// an entry that cannot be read with `读取安装包条目失败: {error}`.
pub fn read_bundle_entry(a: &mut Archive, i: usize, target_dir: &str) -> (r: Result<
    BundleEntry,
    String,
>)
    requires
        i < zip_entry_names(*old(a)).len(),
    ensures
        zip_entry_names(*final(a)) == zip_entry_names(*old(a)),
        forall|k: int| #[trigger] zip_entry_read(*final(a), k) == zip_entry_read(*old(a), k),
        forall|k: int| #[trigger] zip_entry_content(*final(a), k) == zip_entry_content(*old(a), k),
        zip_entry_read(*old(a), i as int) is None ==> (r matches Err(m) && has_prefix(
            m@,
            MSG_READ_ENTRY@,
        )),
        ({
            let name = zip_entry_names(*old(a))[i as int];
            zip_entry_read(*old(a), i as int) is Some ==> {
                &&& portable_name(name) && stays_inside(name) ==> r is Ok
                &&& (has_char(name, '\0') || (name.len() > 0 && name[0] == '/') || name == seq![
                    '.',
                    '.',
                ] || has_prefix(name, seq!['.', '.', '/']) || (!has_char(name, '\\')
                    && !stays_inside(name))) ==> (r matches Err(m) && m@ == MSG_BAD_ENTRY@ + name)
                &&& r matches Err(m) ==> m@ == MSG_BAD_ENTRY@ + name
            }
        }),
        r matches Ok(e) ==> {
            let name = zip_entry_names(*old(a))[i as int];
            &&& zip_entry_read(*old(a), i as int) is Some
            &&& e.dest@ == path_join(target_dir@, name)
            &&& e.is_dir == names_dir(name)
            &&& !has_char(name, '\0')
            &&& !(name.len() > 0 && name[0] == '/')
            &&& !(name == seq!['.', '.'] || has_prefix(name, seq!['.', '.', '/']))
            &&& !has_char(name, '\\') ==> stays_inside(name)
        },
{
    let info = match zip_entry(a, i) {
        Ok(info) => info,
        Err(e) => {
            let m = join2(MSG_READ_ENTRY, e.as_str());
            assert(m@.subrange(0, MSG_READ_ENTRY@.len() as int) =~= MSG_READ_ENTRY@);
            return Err(m);
        },
    };
    let relative = match &info.enclosed {
        Some(p) => p,
        None => return Err(join2(MSG_BAD_ENTRY, info.name.as_str())),
    };
    let dest = join_path(target_dir, relative.as_str());
    let n = info.name.as_str().unicode_len();
    let is_dir = n > 0 && crate::paths::is_separator(info.name.as_str().get_char(n - 1));
    Ok(BundleEntry { dest, is_dir })
}

pub const MSG_EXTRACT_PREFIX: &'static str = "解压 ";

pub const MSG_EXTRACT_FAILED: &'static str = " 失败: ";

/// Reads the contents of file entry `i`, to be written to `dest`. It
/// succeeds exactly when `zip` decompresses the entry, giving its contents;
/// a failure reads `解压 {dest} 失败: {error}`.
pub fn read_entry_data(a: &mut Archive, i: usize, dest: &str) -> (r: Result<Vec<u8>, String>)
    requires
        i < zip_entry_names(*old(a)).len(),
    ensures
        zip_entry_names(*final(a)) == zip_entry_names(*old(a)),
        forall|k: int| #[trigger] zip_entry_read(*final(a), k) == zip_entry_read(*old(a), k),
        forall|k: int| #[trigger] zip_entry_content(*final(a), k) == zip_entry_content(*old(a), k),
        r is Ok <==> zip_entry_content(*old(a), i as int) is Some,
        r matches Ok(d) ==> zip_entry_content(*old(a), i as int) == Some(d@),
        r matches Err(m) ==> has_prefix(m@, MSG_EXTRACT_PREFIX@ + dest@ + MSG_EXTRACT_FAILED@),
{
    match zip_entry_data(a, i) {
        Ok(data) => Ok(data),
        Err(e) => {
            let m = join4(MSG_EXTRACT_PREFIX, dest, MSG_EXTRACT_FAILED, e.as_str());
            let ghost p = MSG_EXTRACT_PREFIX@ + dest@ + MSG_EXTRACT_FAILED@;
            assert(m@.subrange(0, p.len() as int) =~= p);
            Err(m)
        },
    }
}

} // verus!
