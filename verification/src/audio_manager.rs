//! The audio cache: it gives every sound file an identifier of its own and
//! decides under which name the file lies in the cache directory.
//!
//! The cache keeps no index. What it knows of the directory it is told by its
//! caller, as the list of the file names that the directory holds; it answers
//! with the path to read, to write or to delete.

use crate::text::{
    ends_with, extension, file_extension, file_name, file_name_of, file_stem, join, list_holds,
    stem, texts,
};
use vstd::prelude::*;
use vstd::string::StringExecFns;

verus! {

/// A failure of the storage underneath the cache.
#[derive(Debug)]
pub enum AudioError {
    /// An operation on a file failed; the text says how.
    IoError(String),
}

impl AudioError {
    pub open spec fn message_text(self) -> Seq<char> {
        match self {
            AudioError::IoError(reason) => "IO error: "@ + reason@,
        }
    }

    /// The failure in words.
    pub fn message(&self) -> (r: String)
        ensures
            r@ == self.message_text(),
    {
        match self {
            AudioError::IoError(reason) => join("IO error: ", reason.as_str()),
        }
    }
}

/// The directory that holds the cached files.
pub open spec fn cache_directory() -> Seq<char> {
    "audio_cache"@
}

/// The extension a cached file gets where its source has none.
pub open spec fn fallback_extension() -> Seq<char> {
    "mp3"@
}

/// The extensions under which a cached file is looked for, in this order.
pub open spec fn audio_extensions() -> Seq<Seq<char>> {
    seq!["mp3"@, "wav"@, "ogg"@, "m4a"@]
}

/// The name of the cached file with identifier `id` and extension `ext`.
pub open spec fn asset_file_name(id: Seq<char>, ext: Seq<char>) -> Seq<char> {
    id + "."@ + ext
}

pub open spec fn is_lower_hex_digit(c: char) -> bool {
    ('0' <= c && c <= '9') || ('a' <= c && c <= 'f')
}

/// The shape of a fresh identifier: 32 lower-case hexadecimal digits in
/// groups of 8, 4, 4, 4 and 12, with a hyphen between two groups.
pub open spec fn is_asset_id(id: Seq<char>) -> bool {
    &&& id.len() == 36
    &&& forall|i: int|
        0 <= i < 36 ==> if i == 8 || i == 13 || i == 18 || i == 23 {
            #[trigger] id[i] == '-'
        } else {
            is_lower_hex_digit(id[i])
        }
}

/// The extension under which a copy of the file named `source` is cached.
pub open spec fn cached_extension(source: Seq<char>) -> Seq<char> {
    match file_extension(file_name_of(source)) {
        Some(ext) => ext,
        None => fallback_extension(),
    }
}

/// The name of the file that stands for `id` in a directory that holds the
/// files `listing`: the first of the known extensions under which a file of
/// that identifier is there.
pub open spec fn resolved_name(listing: Seq<Seq<char>>, id: Seq<char>) -> Option<Seq<char>> {
    if listing.contains(asset_file_name(id, "mp3"@)) {
        Some(asset_file_name(id, "mp3"@))
    } else if listing.contains(asset_file_name(id, "wav"@)) {
        Some(asset_file_name(id, "wav"@))
    } else if listing.contains(asset_file_name(id, "ogg"@)) {
        Some(asset_file_name(id, "ogg"@))
    } else if listing.contains(asset_file_name(id, "m4a"@)) {
        Some(asset_file_name(id, "m4a"@))
    } else {
        None
    }
}

/// The files of `listing` whose identifier is none of `used`, in the order
/// of `listing`.
pub open spec fn unused_files(listing: Seq<Seq<char>>, used: Seq<Seq<char>>) -> Seq<Seq<char>>
    decreases listing.len(),
{
    if listing.len() == 0 {
        Seq::empty()
    } else {
        let rest = unused_files(listing.drop_last(), used);
        if used.contains(file_stem(listing.last())) {
            rest
        } else {
            rest.push(listing.last())
        }
    }
}

pub open spec fn text_of(s: Option<String>) -> Option<Seq<char>> {
    match s {
        Some(s) => Some(s@),
        None => None,
    }
}

pub struct AudioManager {
    cache_dir: String,
}

/// A fresh identifier: the text of a random UUID, `Uuid::new_v4()` written
/// with `to_string`. The `uuid` crate writes it in the hyphenated lower-case
/// form; which identifier comes is left open.
#[verifier::external_body]
fn new_asset_id() -> (id: String)
    ensures
        is_asset_id(id@),
{
    uuid::Uuid::new_v4().to_string()
}

impl AudioManager {
    /// The directory of this cache.
    pub closed spec fn dir(&self) -> Seq<char> {
        self.cache_dir@
    }

    /// The path of the file `name` of the cache directory.
    pub open spec fn path_of(&self, name: Seq<char>) -> Seq<char> {
        self.dir() + "/"@ + name
    }

    pub open spec fn paths_of(&self, names: Seq<Seq<char>>) -> Seq<Seq<char>> {
        names.map_values(|name: Seq<char>| self.path_of(name))
    }

    pub open spec fn resolved_path(&self, listing: Seq<Seq<char>>, id: Seq<char>) -> Option<
        Seq<char>,
    > {
        match resolved_name(listing, id) {
            Some(name) => Some(self.path_of(name)),
            None => None,
        }
    }

    pub fn new() -> (r: Self)
        ensures
            r.dir() == cache_directory(),
    {
        AudioManager { cache_dir: "audio_cache".to_owned() }
    }

    pub fn cache_dir(&self) -> (r: &str)
        ensures
            r@ == self.dir(),
    {
        self.cache_dir.as_str()
    }

    /// The path of the file `name` of the cache directory.
    pub fn file_path(&self, name: &str) -> (r: String)
        ensures
            r@ == self.path_of(name@),
    {
        let mut path = join(self.cache_dir.as_str(), "/");
        path.append(name);
        path
    }

    /// The path under which a copy of the file named `source_name` is
    /// cached for the identifier `file_id`: the identifier, a dot, and the
    /// source's extension, or `mp3` where it has none.
    pub fn destination_for(&self, file_id: &str, source_name: &str) -> (r: String)
        ensures
            r@ == self.path_of(asset_file_name(file_id@, cached_extension(source_name@))),
    {
        let mut name = join(file_id, ".");
        match extension(file_name(source_name)) {
            Some(ext) => name.append(ext),
            None => name.append("mp3"),
        }
        self.file_path(name.as_str())
    }

    /// Takes a new sound file into the cache: makes a fresh identifier for
    /// it and says where its copy belongs. The caller copies the file there
    /// and keeps the identifier only if the copy succeeded.
    pub fn add_audio_file(&self, source_name: &str) -> (r: (String, String))
        ensures
            is_asset_id(r.0@),
            r.1@ == self.path_of(asset_file_name(r.0@, cached_extension(source_name@))),
    {
        let file_id = new_asset_id();
        let destination = self.destination_for(file_id.as_str(), source_name);
        (file_id, destination)
    }

    fn probe(&self, file_id: &str, ext: &str, listing: &[String]) -> (r: Option<String>)
        ensures
            texts(listing@).contains(asset_file_name(file_id@, ext@)) ==> text_of(r) == Some(
                self.path_of(asset_file_name(file_id@, ext@)),
            ),
            !texts(listing@).contains(asset_file_name(file_id@, ext@)) ==> r is None,
    {
        let mut name = join(file_id, ".");
        name.append(ext);
        if list_holds(listing, name.as_str()) {
            Some(self.file_path(name.as_str()))
        } else {
            None
        }
    }

    /// The path of the cached file with the identifier `file_id`, where
    /// `listing` names the files that the cache directory holds: the first
    /// of `mp3`, `wav`, `ogg`, `m4a` under which the file is there, and
    /// `None` if it is there under none of them.
    pub fn get_audio_file_path(&self, file_id: &str, listing: &[String]) -> (r: Option<String>)
        ensures
            text_of(r) == self.resolved_path(texts(listing@), file_id@),
    {
        if let Some(path) = self.probe(file_id, "mp3", listing) {
            return Some(path);
        }
        if let Some(path) = self.probe(file_id, "wav", listing) {
            return Some(path);
        }
        if let Some(path) = self.probe(file_id, "ogg", listing) {
            return Some(path);
        }
        self.probe(file_id, "m4a", listing)
    }

    /// The path of the file to delete so that the identifier `file_id`
    /// leaves the cache; `None` where the cache holds no such file, which is
    /// no failure.
    pub fn remove_audio_file(&self, file_id: &str, listing: &[String]) -> (r: Option<String>)
        ensures
            text_of(r) == self.resolved_path(texts(listing@), file_id@),
    {
        self.get_audio_file_path(file_id, listing)
    }

    /// The paths of the cached files that no identifier of `used_ids` names
    /// any more, in the order of `listing`: those to delete.
    pub fn _cleanup_unused_files(&self, listing: &[String], used_ids: &[String]) -> (r: Vec<
        String,
    >)
        ensures
            texts(r@) == self.paths_of(unused_files(texts(listing@), texts(used_ids@))),
    {
        let mut doomed: Vec<String> = Vec::new();
        let mut i: usize = 0;
        while i < listing.len()
            invariant
                i <= listing@.len(),
                texts(doomed@) == self.paths_of(
                    unused_files(texts(listing@).take(i as int), texts(used_ids@)),
                ),
            decreases listing@.len() - i,
        {
            let name = listing[i].as_str();
            let ghost before = texts(listing@).take(i as int);
            let ghost upto = texts(listing@).take(i + 1);
            let ghost kept = unused_files(before, texts(used_ids@));
            assert(upto.drop_last() =~= before);
            if !list_holds(used_ids, stem(name)) {
                doomed.push(self.file_path(name));
                assert(self.paths_of(kept.push(name@)) =~= self.paths_of(kept).push(
                    self.path_of(name@),
                ));
            }
            i = i + 1;
        }
        assert(texts(listing@).take(listing@.len() as int) =~= texts(listing@));
        doomed
    }
}

/// Two cached file names of one identifier are the same only if their
/// extensions are.
pub proof fn lemma_asset_file_name_injective(id: Seq<char>, a: Seq<char>, b: Seq<char>)
    requires
        asset_file_name(id, a) == asset_file_name(id, b),
    ensures
        a == b,
{
    let x = asset_file_name(id, a);
    let y = asset_file_name(id, b);
    let k = id.len() + "."@.len();
    assert(a.len() == b.len()) by {
        assert(y.len() == k + b.len());
    }
    assert forall|i: int| 0 <= i < a.len() implies a[i] == b[i] by {
        assert(y[k + i] == b[i]);
    }
}

/// A file that was added under a fresh identifier, with one of the known
/// extensions, is what the identifier resolves to, and its name ends in a
/// dot and that extension; once that file is removed again, the identifier
/// resolves to nothing.
///
/// `before` is the cache directory before the file is added, `added` the
/// directory with the file, `removed` the directory after the file is
/// deleted. The identifier is fresh when `before` holds no file of it.
pub proof fn lemma_add_resolve_remove(
    before: Seq<Seq<char>>,
    added: Seq<Seq<char>>,
    removed: Seq<Seq<char>>,
    id: Seq<char>,
    ext: Seq<char>,
)
    requires
        audio_extensions().contains(ext),
        forall|e: Seq<char>|
            audio_extensions().contains(e) ==> !before.contains(#[trigger] asset_file_name(id, e)),
        forall|name: Seq<char>|
            #[trigger] added.contains(name) <==> before.contains(name) || name
                == asset_file_name(id, ext),
        forall|name: Seq<char>|
            #[trigger] removed.contains(name) <==> added.contains(name) && name
                != asset_file_name(id, ext),
    ensures
        resolved_name(before, id) is None,
        resolved_name(added, id) == Some(asset_file_name(id, ext)),
        ends_with(asset_file_name(id, ext), "."@ + ext),
        resolved_name(removed, id) is None,
{
    let exts = audio_extensions();
    assert(exts.contains("mp3"@) && exts.contains("wav"@) && exts.contains("ogg"@)
        && exts.contains("m4a"@));
    let name = asset_file_name(id, ext);
    assert forall|e: Seq<char>| exts.contains(e) && e != ext implies !added.contains(
        #[trigger] asset_file_name(id, e),
    ) by {
        if asset_file_name(id, e) == name {
            lemma_asset_file_name_injective(id, e, ext);
        }
    }
    assert forall|e: Seq<char>| exts.contains(e) implies !removed.contains(
        #[trigger] asset_file_name(id, e),
    ) by {}
    assert(name.subrange(name.len() - ("."@ + ext).len(), name.len() as int) =~= "."@ + ext);
}

/// The name of a cached file gives its identifier and its extension back,
/// as long as neither is empty and the extension holds no dot.
pub proof fn lemma_parts_of_asset_file_name(id: Seq<char>, ext: Seq<char>)
    requires
        id.len() > 0,
        ext.len() > 0,
        !ext.contains('.'),
    ensures
        file_stem(asset_file_name(id, ext)) == id,
        file_extension(asset_file_name(id, ext)) == Some(ext),
{
    reveal_strlit(".");
    let name = asset_file_name(id, ext);
    let k = id.len() as int;
    assert forall|j: int| k < j < name.len() implies name[j] != '.' by {}
    crate::text::lemma_last_index_of_unique(name, '.', k);
}

/// A sweep deletes exactly the files whose identifier is no longer in use:
/// a file is among those to delete if and only if the directory holds it and
/// its stem is none of the identifiers in use.
pub proof fn lemma_unused_files(listing: Seq<Seq<char>>, used: Seq<Seq<char>>, name: Seq<char>)
    ensures
        unused_files(listing, used).contains(name) <==> listing.contains(name) && !used.contains(
            file_stem(name),
        ),
    decreases listing.len(),
{
    if listing.len() > 0 {
        let front = listing.drop_last();
        let rest = unused_files(front, used);
        lemma_unused_files(front, used, name);
        if listing.contains(name) {
            let i = choose|i: int| 0 <= i < listing.len() && listing[i] == name;
            if i < front.len() {
                assert(front[i] == name);
            }
        }
        if !used.contains(file_stem(listing.last())) {
            let full = rest.push(listing.last());
            assert(full.last() == listing.last());
            if rest.contains(name) {
                let i = choose|i: int| 0 <= i < rest.len() && rest[i] == name;
                assert(full[i] == name);
            }
        }
    }
}

} // verus!
