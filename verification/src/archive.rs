use crate::text::{chars_of, same, slice, split_at_char, split_char, views};
use std::io::Read;
use vstd::prelude::*;

verus! {

/// One entry of an archive: its path, and its content read as text or the
/// reason why it could not be read so.
#[derive(Debug)]
pub struct ArchiveEntry {
    pub path: String,
    pub text: Result<String, String>,
}

/// What an `ArchiveEntry` holds.
pub struct ArchiveEntryView {
    pub path: Seq<char>,
    pub text: Result<Seq<char>, Seq<char>>,
}

impl View for ArchiveEntry {
    type V = ArchiveEntryView;

    open spec fn view(&self) -> ArchiveEntryView {
        ArchiveEntryView {
            path: self.path@,
            text: match self.text {
                Ok(text) => Ok(text@),
                Err(reason) => Err(reason@),
            },
        }
    }
}

/// The entries of an archive in their order, each with the reason where it
/// cannot be had; or the reason why the archive cannot be opened.
pub type Listing = Result<Seq<Result<ArchiveEntryView, Seq<char>>>, Seq<char>>;

/// What the entries of a listing hold.
pub open spec fn entry_views(v: Seq<Result<ArchiveEntry, String>>) -> Seq<
    Result<ArchiveEntryView, Seq<char>>,
> {
    Seq::new(
        v.len(),
        |i: int|
            match v[i] {
                Ok(entry) => Ok(entry@),
                Err(reason) => Err(reason@),
            },
    )
}

/// What a listing holds.
pub open spec fn listing_view(r: Result<Vec<Result<ArchiveEntry, String>>, String>) -> Listing {
    match r {
        Ok(entries) => Ok(entry_views(entries@)),
        Err(reason) => Err(reason@),
    }
}

/// What the `zip` crate reads from the bytes of a ZIP archive.
pub uninterp spec fn zip_listing(data: Seq<u8>) -> Listing;

/// What the `tar` crate reads from the bytes of a tar archive.
pub uninterp spec fn tar_listing(data: Seq<u8>) -> Listing;

/// What the `tar` crate reads from the bytes of a tar archive that
/// `flate2` unpacks from gzip.
pub uninterp spec fn tar_gz_listing(data: Seq<u8>) -> Listing;

/// The text that bytes stand for as UTF-8, with the replacement character
/// where they stand for none.
pub uninterp spec fn lossy_text(data: Seq<u8>) -> Seq<char>;

/// Opens the bytes with `zip::ZipArchive::new` and takes each entry with
/// `by_index`, its name with `name` and its content with `read_to_string`.
/// Believed: what comes out is a function of the bytes alone.
#[verifier::external_body]
pub(crate) fn read_zip(data: &[u8]) -> (r: Result<Vec<Result<ArchiveEntry, String>>, String>)
    ensures
        listing_view(r) == zip_listing(data@),
{
    let mut archive =
        zip::ZipArchive::new(std::io::Cursor::new(data)).map_err(|e| e.to_string())?;
    let mut out = Vec::new();
    for i in 0..archive.len() {
        out.push(archive.by_index(i).map_err(|e| e.to_string()).map(|mut file| {
            let mut text = String::new();
            let read = file.read_to_string(&mut text).map_err(|e| e.to_string());
            ArchiveEntry { path: file.name().to_string(), text: read.map(|_| text) }
        }));
    }
    Ok(out)
}

/// Walks the bytes with `tar::Archive::entries` and takes the path of each
/// entry with `path_bytes`, read as UTF-8 with replacements, and its
/// content with `read_to_string`. Believed: what comes out is a function
/// of the bytes alone.
#[verifier::external_body]
pub(crate) fn read_tar(data: &[u8]) -> (r: Result<Vec<Result<ArchiveEntry, String>>, String>)
    ensures
        listing_view(r) == tar_listing(data@),
{
    let mut archive = tar::Archive::new(data);
    let mut out = Vec::new();
    for entry in archive.entries().map_err(|e| e.to_string())? {
        out.push(entry.map_err(|e| e.to_string()).map(|mut file| {
            let path = String::from_utf8_lossy(&file.path_bytes()).to_string();
            let mut text = String::new();
            let read = file.read_to_string(&mut text).map_err(|e| e.to_string());
            ArchiveEntry { path, text: read.map(|_| text) }
        }));
    }
    Ok(out)
}

/// As `read_tar`, on what `flate2::read::GzDecoder` unpacks from the
/// bytes.
#[verifier::external_body]
pub(crate) fn read_tar_gz(data: &[u8]) -> (r: Result<Vec<Result<ArchiveEntry, String>>, String>)
    ensures
        listing_view(r) == tar_gz_listing(data@),
{
    let mut archive = tar::Archive::new(flate2::read::GzDecoder::new(data));
    let mut out = Vec::new();
    for entry in archive.entries().map_err(|e| e.to_string())? {
        out.push(entry.map_err(|e| e.to_string()).map(|mut file| {
            let path = String::from_utf8_lossy(&file.path_bytes()).to_string();
            let mut text = String::new();
            let read = file.read_to_string(&mut text).map_err(|e| e.to_string());
            ArchiveEntry { path, text: read.map(|_| text) }
        }));
    }
    Ok(out)
}

/// Reads bytes as UTF-8 with `String::from_utf8_lossy`, which puts the
/// replacement character where the bytes are no UTF-8.
#[verifier::external_body]
pub(crate) fn read_lossy(data: &[u8]) -> (r: String)
    ensures
        r@ == lossy_text(data@),
{
    String::from_utf8_lossy(data).into_owned()
}

/// The last of `parts` that names a file or a directory: empty parts and
/// `.` are passed over, and `..` names none.
pub open spec fn last_normal(parts: Seq<Seq<char>>) -> Option<Seq<char>>
    decreases parts.len(),
{
    if parts.len() == 0 {
        None
    } else if parts.last().len() == 0 || parts.last() == "."@ {
        last_normal(parts.drop_last())
    } else if parts.last() == ".."@ {
        None
    } else {
        Some(parts.last())
    }
}

/// The file name of a path whose parts are separated by `/`: its last
/// part, if that names a file or a directory.
pub open spec fn file_name(path: Seq<char>) -> Option<Seq<char>> {
    last_normal(split_char(path, '/'))
}

/// The index of the last `.` of `name` before `to`, or -1.
pub open spec fn last_dot(name: Seq<char>, to: int) -> int
    decreases to,
{
    if to <= 0 || to > name.len() {
        -1
    } else if name[to - 1] == '.' {
        to - 1
    } else {
        last_dot(name, to - 1)
    }
}

/// The extension of a path: what follows the last `.` of its file name,
/// where that `.` is not the first character of the name.
pub open spec fn extension(path: Seq<char>) -> Option<Seq<char>> {
    match file_name(path) {
        None => None,
        Some(name) => if last_dot(name, name.len() as int) <= 0 {
            None
        } else {
            Some(name.skip(last_dot(name, name.len() as int) + 1))
        },
    }
}

/// The file name of a path.
pub fn file_name_of(path: &Vec<char>) -> (r: Option<Vec<char>>)
    ensures
        match r {
            Some(name) => file_name(path@) == Some(name@),
            None => file_name(path@) is None,
        },
{
    let mut parts = split_at_char(path, '/');
    let dot = chars_of(".");
    let dots = chars_of("..");
    while parts.len() > 0
        invariant
            dot@ == "."@,
            dots@ == ".."@,
            file_name(path@) == last_normal(views(parts@)),
        decreases parts.len(),
    {
        let ghost before = views(parts@);
        let last = parts.pop().unwrap();
        assert(views(parts@) =~= before.drop_last());
        assert(before.last() == last@);
        if last.len() == 0 || same(&last, &dot) {
        } else if same(&last, &dots) {
            return None;
        } else {
            return Some(last);
        }
    }
    None
}

/// The extension of a path.
pub fn extension_of(path: &Vec<char>) -> (r: Option<Vec<char>>)
    ensures
        match r {
            Some(ext) => extension(path@) == Some(ext@),
            None => extension(path@) is None,
        },
{
    match file_name_of(path) {
        None => None,
        Some(name) => {
            let mut to: usize = name.len();
            while to > 0 && name[to - 1] != '.'
                invariant
                    to <= name.len(),
                    last_dot(name@, name.len() as int) == last_dot(name@, to as int),
                decreases to,
            {
                to -= 1;
            }
            if to <= 1 {
                None
            } else {
                let ext = slice(&name, to, name.len());
                assert(ext@ =~= name@.skip(to as int));
                Some(ext)
            }
        },
    }
}

} // verus!
