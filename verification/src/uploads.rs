//! Where uploaded files are stored. Each upload gets a fresh name, the
//! SHA-512 digest of the moment it arrived, and keeps the extension of the
//! name it was sent under. The server copies the file to an absolute path
//! and stores the public path in the database.

use vstd::prelude::*;
use crate::secrets::{sha512_hex, sha512_hex_spec};
use crate::text::{split_on, split_spec};

verus! {

/// The directory that holds uploads on the server.
pub open spec fn base_path_spec() -> Seq<char> {
    "/var/www/templo-sagrado.com/assets/uploads/"@
}

/// The directory that holds uploads on the server.
pub fn base_path() -> (res: String)
    ensures
        res@ == base_path_spec(),
{
    String::from_str("/var/www/templo-sagrado.com/assets/uploads/")
}

/// The extension an upload keeps: the piece of its name after the first
/// dot and before any further dot (`photo.jpg` -> `jpg`,
/// `a.tar.gz` -> `tar`). A name without a dot has none.
pub open spec fn extension_spec(file_name: Seq<char>) -> Option<Seq<char>> {
    if split_spec(file_name, '.').len() >= 2 {
        Some(split_spec(file_name, '.')[1])
    } else {
        None
    }
}

/// The extension an upload keeps.
pub fn file_extension(file_name: &str) -> (res: Option<String>)
    ensures
        match res {
            Some(e) => extension_spec(file_name@) == Some(e@),
            None => extension_spec(file_name@) is None,
        },
{
    let parts = split_on(file_name, '.');
    if parts.len() >= 2 {
        Some(parts[1].clone())
    } else {
        None
    }
}

/// The two paths of a stored upload.
#[derive(Debug)]
pub struct StoredPaths {
    /// Where the server copies the file.
    pub absolute: String,
    /// The path under which the site serves it.
    pub public: String,
}

/// The kinds of upload, by where they are kept.
#[derive(Clone, Copy, Debug, PartialEq, Eq, Structural)]
pub enum UploadArea {
    /// Profile pictures, banners, post and product images.
    Uploads,
    /// Images of the editable page layout.
    LayoutImages,
}

pub open spec fn area_dirs(area: UploadArea) -> (Seq<char>, Seq<char>) {
    match area {
        UploadArea::Uploads => (base_path_spec(), "/assets/uploads/"@),
        UploadArea::LayoutImages => (
            "/var/www/templo-sagrado.com/assets/home/img/"@,
            "/assets/home/img/"@,
        ),
    }
}

/// The paths of an upload named `name` with extension `ext` in `area`.
pub open spec fn stored_paths_spec(area: UploadArea, name: Seq<char>, ext: Seq<char>) -> (Seq<char>, Seq<char>) {
    let (abs_dir, pub_dir) = area_dirs(area);
    (abs_dir + name + "."@ + ext, pub_dir + name + "."@ + ext)
}

/// The paths of an upload named `name` with extension `ext` in `area`.
pub fn stored_paths(area: UploadArea, name: &str, ext: &str) -> (res: StoredPaths)
    ensures
        (res.absolute@, res.public@) == stored_paths_spec(area, name@, ext@),
{
    let (mut absolute, mut public) = match area {
        UploadArea::Uploads => (base_path(), String::from_str("/assets/uploads/")),
        UploadArea::LayoutImages => (
            String::from_str("/var/www/templo-sagrado.com/assets/home/img/"),
            String::from_str("/assets/home/img/"),
        ),
    };
    absolute.append(name);
    absolute.append(".");
    absolute.append(ext);
    public.append(name);
    public.append(".");
    public.append(ext);
    StoredPaths { absolute, public }
}

/// The copied file and the path the site serves name the same file: both
/// end with `<name>.<ext>`, under the area's two directories.
pub proof fn lemma_upload_paths_name_one_file(area: UploadArea, name: Seq<char>, ext: Seq<char>)
    ensures
        ({
            let (absolute, public) = stored_paths_spec(area, name, ext);
            let file = name + "."@ + ext;
            &&& absolute == area_dirs(area).0 + file
            &&& public == area_dirs(area).1 + file
            &&& absolute.skip(absolute.len() - file.len()) == public.skip(public.len() - file.len())
        }),
{
    let (absolute, public) = stored_paths_spec(area, name, ext);
    let file = name + "."@ + ext;
    assert(absolute =~= area_dirs(area).0 + file);
    assert(public =~= area_dirs(area).1 + file);
    assert(absolute.skip(absolute.len() - file.len()) =~= file);
    assert(public.skip(public.len() - file.len()) =~= file);
}

/// Where an upload sent under `file_name` at the moment written `stamp` is
/// stored: named by the digest of the stamp, keeping the extension. `None`
/// when the name has no extension (the server refuses such a file).
pub fn place_upload(area: UploadArea, file_name: &str, stamp: &str) -> (res: Option<StoredPaths>)
    ensures
        match extension_spec(file_name@) {
            Some(ext) => res matches Some(p) && (p.absolute@, p.public@) == stored_paths_spec(
                area,
                sha512_hex_spec(stamp@),
                ext,
            ),
            None => res is None,
        },
{
    match file_extension(file_name) {
        Some(ext) => {
            let name = sha512_hex(stamp);
            Some(stored_paths(area, name.as_str(), ext.as_str()))
        },
        None => None,
    }
}

/// The image path an edited record keeps: the public path of the file sent
/// with the form, or the stored path when the form sends none.
pub fn image_after_edit(upload: Option<StoredPaths>, stored: String) -> (res: String)
    ensures
        res@ == match upload {
            Some(p) => p.public@,
            None => stored@,
        },
{
    match upload {
        Some(p) => p.public,
        None => stored,
    }
}

/// The paths of a call recording named by the digest of `stamp`: the file
/// is copied to `<uploads>/<digest>.ogg` and recorded as
/// `/assets/uploads/<digest>..ogg`.
pub fn place_call_recording(stamp: &str) -> (res: StoredPaths)
    ensures
        res.absolute@ == base_path_spec() + "/"@ + sha512_hex_spec(stamp@) + ".ogg"@,
        res.public@ == "/assets/uploads/"@ + sha512_hex_spec(stamp@) + "..ogg"@,
{
    let name = sha512_hex(stamp);
    let mut absolute = base_path();
    absolute.append("/");
    absolute.append(name.as_str());
    absolute.append(".ogg");
    let mut public = String::from_str("/assets/uploads/");
    public.append(name.as_str());
    public.append("..ogg");
    StoredPaths { absolute, public }
}

} // verus!
