//! The archive resolver: from an optional category and an identifier to the
//! place of the source archive in the sharded store, and from what was read
//! there to the response.

use crate::ident::{strip_zip_ext, without_suffix};
use vstd::prelude::*;
use vstd::string::{StrSliceExecFns, StringExecFns};

verus! {

/// Number of leading characters of an identifier that name its shard.
pub const SHARD_KEY_LEN: usize = 4;

/// Storage root used where none is configured.
pub const DEFAULT_PAPERS_ROOT_DIR: &'static str = "/data/arxmliv";

/// The storage root in use: the configured directory, or the default where
/// none is configured.
pub fn papers_root_dir(configured: Option<String>) -> (root: String)
    ensures
        root@ == match configured {
            Some(dir) => dir@,
            None => DEFAULT_PAPERS_ROOT_DIR@,
        },
{
    match configured {
        Some(dir) => dir,
        None => String::from_str(DEFAULT_PAPERS_ROOT_DIR),
    }
}

/// Content type of a response body.
#[derive(Clone, Copy, Debug, PartialEq, Eq, Structural)]
pub enum ContentType {
    /// Plain text.
    Plain,
    /// A zip archive.
    Zip,
}

impl ContentType {
    /// The media type as it is written in a response's header.
    pub open spec fn media_type_text(self) -> Seq<char> {
        match self {
            ContentType::Plain => "text/plain"@,
            ContentType::Zip => "application/zip"@,
        }
    }

    /// The media type as it is written in a response's header.
    pub fn media_type(self) -> (text: &'static str)
        ensures
            text@ == self.media_type_text(),
    {
        match self {
            ContentType::Plain => "text/plain",
            ContentType::Zip => "application/zip",
        }
    }
}

/// The category as it is glued in front of the identifier: itself, or
/// nothing where there is none.
pub open spec fn category_prefix(field_opt: Option<&str>) -> Seq<char> {
    match field_opt {
        Some(field) => field@,
        None => Seq::empty(),
    }
}

/// Place of an archive: `{root}/{shard}/{prefix}{id}/{prefix}{id}.zip`, where
/// the shard is the first four characters of `id`.
pub open spec fn source_zip_path(root: Seq<char>, prefix: Seq<char>, id: Seq<char>) -> Seq<char>
    recommends
        id.len() >= SHARD_KEY_LEN,
{
    root + "/"@ + id.subrange(0, SHARD_KEY_LEN as int) + "/"@ + prefix + id + "/"@ + prefix + id
        + ".zip"@
}

/// The place of the archive of `id`, or nothing for an identifier too short
/// to have a shard.
pub open spec fn resolved_path(root: Seq<char>, prefix: Seq<char>, id: Seq<char>) -> Option<
    Seq<char>,
> {
    if id.len() >= SHARD_KEY_LEN {
        Some(source_zip_path(root, prefix, id))
    } else {
        None
    }
}

/// The path and `resolved` agree.
pub open spec fn path_is(path: Option<String>, resolved: Option<Seq<char>>) -> bool {
    match path {
        Some(p) => resolved == Some(p@),
        None => resolved is None,
    }
}

/// Computes where under `root` the archive of `id` is stored. The category,
/// where there is one, is glued in front of the identifier in both the
/// directory's and the file's name. An identifier of fewer than four
/// characters has no place.
pub fn build_source_zip_path(root: &str, field_opt: Option<&str>, id: &str) -> (path: Option<
    String,
>)
    ensures
        path_is(path, resolved_path(root@, category_prefix(field_opt), id@)),
{
    if id.unicode_len() < SHARD_KEY_LEN {
        return None;
    }
    let id_base = id.substring_char(0, SHARD_KEY_LEN);
    let field = match field_opt {
        Some(field) => field,
        None => "",
    };
    proof {
        reveal_strlit("");
    }
    let mut path = String::from_str(root);
    path.append("/");
    path.append(id_base);
    path.append("/");
    path.append(field);
    path.append(id);
    path.append("/");
    path.append(field);
    path.append(id);
    path.append(".zip");
    Some(path)
}

/// `/source/{id}`: the place of the archive of `id` without category, a
/// trailing `.zip` of `id` dropped.
pub fn get_source_zip(root: &str, id: &str) -> (path: Option<String>)
    ensures
        path_is(path, resolved_path(root@, Seq::empty(), without_suffix(id@, ".zip"@))),
{
    let id_core = strip_zip_ext(id);
    build_source_zip_path(root, None, id_core.as_str())
}

/// `/source/{field}/{id}`: the place of the archive of `id` in category
/// `field`, a trailing `.zip` of `id` dropped.
pub fn get_field_source_zip(root: &str, field: &str, id: &str) -> (path: Option<String>)
    ensures
        path_is(path, resolved_path(root@, field@, without_suffix(id@, ".zip"@))),
{
    let id_core = strip_zip_ext(id);
    build_source_zip_path(root, Some(field), id_core.as_str())
}

/// The bytes of `stored`, where there are any.
pub open spec fn stored_bytes(stored: Option<Vec<u8>>) -> Option<Seq<u8>> {
    match stored {
        Some(bytes) => Some(bytes@),
        None => None,
    }
}

/// The response for what was read at an archive's place: nothing for a
/// missing and for an empty file, else the bytes as a zip archive.
pub open spec fn archive_response(stored: Option<Seq<u8>>) -> Option<(ContentType, Seq<u8>)> {
    match stored {
        Some(bytes) => if bytes.len() == 0 {
            None
        } else {
            Some((ContentType::Zip, bytes))
        },
        None => None,
    }
}

/// `response` as plain values.
pub open spec fn response_view(response: Option<(ContentType, Vec<u8>)>) -> Option<
    (ContentType, Seq<u8>),
> {
    match response {
        Some((content_type, payload)) => Some((content_type, payload@)),
        None => None,
    }
}

/// The response for what was read at an archive's place: `stored` is the
/// file's content, or nothing where no file could be read. A missing and an
/// empty file both give no response; any other content is handed back as a
/// zip archive, byte for byte.
pub fn fetch_zip(stored: Option<Vec<u8>>) -> (response: Option<(ContentType, Vec<u8>)>)
    ensures
        response_view(response) == archive_response(stored_bytes(stored)),
{
    match stored {
        Some(payload) => {
            if payload.len() == 0 {
                None
            } else {
                Some((ContentType::Zip, payload))
            }
        },
        None => None,
    }
}

/// What a read at `path` finds in `store`, a store being the content of each
/// file by its path.
pub open spec fn read_at(store: Map<Seq<char>, Seq<u8>>, path: Option<Seq<char>>) -> Option<
    Seq<u8>,
> {
    match path {
        Some(p) => if store.contains_key(p) {
            Some(store[p])
        } else {
            None
        },
        None => None,
    }
}

/// The answer to a request for the archive of `id` with prefix `prefix`,
/// against `store`: the path is resolved, read, and the response decided.
pub open spec fn served(
    store: Map<Seq<char>, Seq<u8>>,
    root: Seq<char>,
    prefix: Seq<char>,
    id: Seq<char>,
) -> Option<(ContentType, Seq<u8>)> {
    archive_response(read_at(store, resolved_path(root, prefix, id)))
}

/// A non-empty file at the resolved path is served as a zip archive with
/// exactly its bytes.
pub proof fn lemma_stored_archive_is_served(
    store: Map<Seq<char>, Seq<u8>>,
    root: Seq<char>,
    prefix: Seq<char>,
    id: Seq<char>,
)
    requires
        id.len() >= SHARD_KEY_LEN,
        store.contains_key(source_zip_path(root, prefix, id)),
        store[source_zip_path(root, prefix, id)].len() > 0,
    ensures
        served(store, root, prefix, id) == Some(
            (ContentType::Zip, store[source_zip_path(root, prefix, id)]),
        ),
{
}

/// Nothing is served for an identifier that is too short, for a path with no
/// file, and for an empty file; and in no other case.
pub proof fn lemma_nothing_served(
    store: Map<Seq<char>, Seq<u8>>,
    root: Seq<char>,
    prefix: Seq<char>,
    id: Seq<char>,
)
    ensures
        served(store, root, prefix, id) is None <==> (id.len() < SHARD_KEY_LEN
            || !store.contains_key(source_zip_path(root, prefix, id))
            || store[source_zip_path(root, prefix, id)].len() == 0),
{
}

/// Resolving and reading twice against an unchanged store gives the same
/// response: whatever two runs computed as path and read there, they answer
/// alike.
pub proof fn lemma_resolution_is_repeatable(
    store: Map<Seq<char>, Seq<u8>>,
    root: Seq<char>,
    prefix: Seq<char>,
    id: Seq<char>,
    first_path: Option<String>,
    second_path: Option<String>,
    first_read: Option<Vec<u8>>,
    second_read: Option<Vec<u8>>,
)
    requires
        path_is(first_path, resolved_path(root, prefix, id)),
        path_is(second_path, resolved_path(root, prefix, id)),
        stored_bytes(first_read) == read_at(store, resolved_path(root, prefix, id)),
        stored_bytes(second_read) == read_at(store, resolved_path(root, prefix, id)),
    ensures
        first_path is Some <==> second_path is Some,
        first_path is Some ==> first_path->0@ == second_path->0@,
        archive_response(stored_bytes(first_read)) == archive_response(stored_bytes(second_read)),
        archive_response(stored_bytes(first_read)) == served(store, root, prefix, id),
{
}

/// Body of the crawler policy: every crawler is kept off every page.
pub const ROBOTS_BODY: &'static str = "User-agent: *\nDisallow: *\n";

/// `/robots.txt`: the fixed crawler policy, as plain text.
pub fn robots_txt() -> (response: (ContentType, &'static str))
    ensures
        response.0 == ContentType::Plain,
        response.1@ == "User-agent: *\nDisallow: *\n"@,
{
    (ContentType::Plain, ROBOTS_BODY)
}

} // verus!
