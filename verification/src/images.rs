//! The image store: PNG validation, identifier generation, sharded path
//! derivation, and the policy that combines them for a post-creation or
//! post-deletion request.

use vstd::prelude::*;
use vstd::pervasive::unreached;
use vstd::string::StrSliceExecFns;
use vstd::string::StringExecFns;
use base64::Engine;
use crate::error::AppImageError;
use crate::model::{AvatarImagePath, PostImagePath};

verus! {

/// The category of a stored image: attached to a post, or a user's avatar.
/// It determines the storage subdirectory an image lives in.
#[derive(Debug, Clone, Copy, PartialEq, Eq, Structural)]
pub enum ImageKind {
    Post,
    Avatar,
}

/// The storage subdirectory of each image kind.
pub open spec fn dir_name_spec(kind: ImageKind) -> Seq<char> {
    match kind {
        ImageKind::Post => "posts"@,
        ImageKind::Avatar => "avatars"@,
    }
}

/// The directory an image of kind `kind` named by `id` is stored under:
/// `./images/<kind dir>/<first two chars of id>/<next two chars of id>/`.
/// The two-level sharding by the first four characters of the identifier
/// bounds the number of files per directory.
pub open spec fn shard_prefix_spec(kind: ImageKind, id: Seq<char>) -> Seq<char> {
    "./images/"@ + dir_name_spec(kind) + "/"@ + id.subrange(0, 2) + "/"@ + id.subrange(2, 4)
        + "/"@
}

/// The file name of an image named by `id`: the identifier itself with a
/// `.png` extension, whatever the image's kind.
pub open spec fn file_name_spec(id: Seq<char>) -> Seq<char> {
    id + ".png"@
}

/// The storage path of an image of kind `kind` named by the identifier `id`:
/// `./images/<kind dir>/<first two chars of id>/<next two chars of id>/<id>.png`.
pub open spec fn path_spec(kind: ImageKind, id: Seq<char>) -> Seq<char> {
    shard_prefix_spec(kind, id) + file_name_spec(id)
}

/// The storage subdirectory of each image kind, as a string.
pub fn dir_name(kind: ImageKind) -> (r: &'static str)
    ensures
        r@ == dir_name_spec(kind),
{
    match kind {
        ImageKind::Post => "posts",
        ImageKind::Avatar => "avatars",
    }
}

/// Returns the path of the image with the provided identifier on the file
/// system, sharded by the identifier's first four characters.
/// For example, a post image with UUID `123e4567-e89b-12d3-a456-426614174000`
/// is stored at `./images/posts/12/3e/123e4567-e89b-12d3-a456-426614174000.png`.
///
/// Identifiers are store-generated UUIDs of 36 characters; an identifier of
/// fewer than 4 characters signals caller misuse and is ruled out here.
pub fn derive_path(kind: ImageKind, id: &str) -> (r: String)
    requires
        id@.len() >= 4,
    ensures
        r@ == path_spec(kind, id@),
{
    let mut r = "./images/".to_owned();
    r.append(dir_name(kind));
    r.append("/");
    r.append(id.substring_char(0, 2));
    r.append("/");
    r.append(id.substring_char(2, 4));
    r.append("/");
    r.append(id);
    r.append(".png");
    proof {
        assert(r@ =~= path_spec(kind, id@));
    }
    r
}

/// A lower-case hexadecimal digit, the alphabet of a UUID's text form.
pub open spec fn is_hex_digit(c: char) -> bool {
    ('0' <= c && c <= '9') || ('a' <= c && c <= 'f')
}

/// The hyphenated lower-case text form of a UUID: 36 characters, with
/// hyphens at positions 8, 13, 18 and 23 and hex digits everywhere else.
/// Every identifier the store generates has this form.
pub open spec fn is_uuid_text(s: Seq<char>) -> bool {
    &&& s.len() == 36
    &&& forall|i: int|
        0 <= i < 36 ==> (if i == 8 || i == 13 || i == 18 || i == 23 {
            s[i] == '-'
        } else {
            is_hex_digit(#[trigger] s[i])
        })
}

/// Decides whether a string has the text form of a UUID. Identifiers come
/// back from the persistence layer as plain strings, so an edge that is
/// handed one can re-establish the store's invariant before deriving a path
/// from it.
pub fn is_uuid_str(s: &str) -> (r: bool)
    ensures
        r == is_uuid_text(s@),
{
    let n = s.unicode_len();
    if n != 36 {
        return false;
    }
    for i in 0..36usize
        invariant
            s@.len() == 36,
            forall|j: int|
                0 <= j < i ==> (if j == 8 || j == 13 || j == 18 || j == 23 {
                    s@[j] == '-'
                } else {
                    is_hex_digit(#[trigger] s@[j])
                }),
    {
        let c = s.get_char(i);
        if i == 8 || i == 13 || i == 18 || i == 23 {
            if c != '-' {
                return false;
            }
        } else {
            if !(('0' <= c && c <= '9') || ('a' <= c && c <= 'f')) {
                return false;
            }
        }
    }
    true
}

/// Relies on uuid::Uuid::new_v4 and on uuid::Uuid's `Display` form, which the
/// crate renders hyphenated in lower case: 36 characters, hyphens at
/// positions 8, 13, 18 and 23, lower-case hex digits elsewhere. The value is
/// random, so nothing relates two calls; only the shape is stated.
#[verifier::external_body]
fn fresh_uuid() -> (r: String)
    ensures
        is_uuid_text(r@),
{
    uuid::Uuid::new_v4().to_string()
}

/// An in-memory decoded image of the image crate; the store never looks
/// inside one, it only receives one from the decoder as proof that the
/// bytes were valid.
#[verifier::external_type_specification]
#[verifier::external_body]
pub struct ExDynamicImage(image::DynamicImage);

/// Whether the image crate's PNG decoder accepts these bytes: the store's
/// definition of "valid PNG data". Decoding an in-memory buffer depends on
/// the bytes alone.
pub uninterp spec fn is_png(bytes: Seq<u8>) -> bool;

/// Relies on image::ImageReader::with_format with image::ImageFormat::Png
/// followed by ImageReader::decode: decoding an in-memory buffer returns an
/// image exactly when the bytes are PNG data the decoder accepts, and
/// depends on the bytes alone.
#[verifier::external_body]
fn decode_png(bytes: &Vec<u8>) -> (r: Result<image::DynamicImage, String>)
    ensures
        r is Ok <==> is_png(bytes@),
{
    image::ImageReader::with_format(std::io::Cursor::new(bytes.as_slice()), image::ImageFormat::Png)
        .decode()
        .map_err(|e| e.to_string())
}

/// What re-encoding valid PNG bytes through the image crate produces: the
/// decoded pixels written out as PNG again, a function of the input bytes
/// alone.
pub uninterp spec fn reencoded_png_of(bytes: Seq<u8>) -> Seq<u8>;

/// Relies on the same ImageReader::decode call as the validator, followed by
/// image::DynamicImage::write_to with image::ImageFormat::Png into an
/// in-memory buffer. Decoding succeeds exactly when the bytes are valid PNG
/// data; writing a decoded image to memory then cannot fail, since the crate
/// converts any decoded color type to one the PNG encoder accepts; and both
/// steps depend on the input bytes alone.
#[verifier::external_body]
fn reencode_png(bytes: Vec<u8>) -> (r: Result<Vec<u8>, String>)
    ensures
        r is Ok <==> is_png(bytes@),
        r matches Ok(o) ==> o@ == reencoded_png_of(bytes@),
{
    let reader =
        image::ImageReader::with_format(std::io::Cursor::new(bytes), image::ImageFormat::Png);
    let img = match reader.decode() {
        Ok(img) => img,
        Err(e) => return Err(e.to_string()),
    };
    let mut buf = std::io::Cursor::new(Vec::new());
    match img.write_to(&mut buf, image::ImageFormat::Png) {
        Ok(()) => Ok(buf.into_inner()),
        Err(e) => Err(e.to_string()),
    }
}

impl PostImagePath {
    /// Wrap a store-generated identifier as a post image name.
    pub fn new(uuid: String) -> (r: Self)
        ensures
            r@ == uuid@,
    {
        PostImagePath(uuid)
    }

    /// Post images are stored in the `images/posts` directory.
    /// Returns the path to the image file on the file system.
    pub fn path(&self) -> (r: String)
        requires
            self@.len() >= 4,
        ensures
            r@ == path_spec(ImageKind::Post, self@),
    {
        derive_path(ImageKind::Post, self.0.as_str())
    }
}

impl AvatarImagePath {
    /// Wrap a store-generated identifier as an avatar image name.
    pub fn new(uuid: String) -> (r: Self)
        ensures
            r@ == uuid@,
    {
        AvatarImagePath(uuid)
    }

    /// Avatars are stored in the `images/avatars` directory.
    /// Returns the path to the image file on the file system.
    pub fn path(&self) -> (r: String)
        requires
            self@.len() >= 4,
        ensures
            r@ == path_spec(ImageKind::Avatar, self@),
    {
        derive_path(ImageKind::Avatar, self.0.as_str())
    }
}

/// Whether a directly uploaded buffer, if present, is valid PNG data.
pub open spec fn upload_ok(post_image_bytes: Option<Vec<u8>>) -> bool {
    post_image_bytes matches Some(b) ==> is_png(b@)
}

/// Whether the avatar fetch, if one was requested, delivered any bytes.
pub open spec fn fetch_delivered(avatar_fetch: Option<Result<Vec<u8>, String>>) -> bool {
    avatar_fetch matches Some(f) ==> f is Ok
}

/// Whether the avatar fetch, if one was requested, delivered valid PNG data.
pub open spec fn avatar_ok(avatar_fetch: Option<Result<Vec<u8>, String>>) -> bool {
    avatar_fetch matches Some(f) ==> (f matches Ok(b) && is_png(b@))
}

/// The inputs of a creation request, after both passed validation and
/// before any identifier is assigned or any byte is written. Holding the
/// bytes rather than the decoded images keeps the save phase's contract
/// exact over byte sequences; the save phase re-decodes when it encodes.
pub struct ValidatedImages {
    /// The upload bytes, once they have decoded as PNG.
    pub post: Option<Vec<u8>>,
    /// The fetched avatar bytes, once they have decoded as PNG.
    pub avatar: Option<Vec<u8>>,
}

/// The validation phase of combined processing: decode the direct upload and
/// the fetched avatar bytes, each as PNG specifically. Validation succeeds
/// exactly when every input that is present is valid PNG data; no identifier
/// exists and nothing can be written before it has succeeded. When the fetch
/// failed and the upload is also invalid, which of the two errors surfaces
/// is unspecified.
pub fn validate_images(
    post_image_bytes: Option<Vec<u8>>,
    avatar_fetch: Option<Result<Vec<u8>, String>>,
) -> (r: Result<ValidatedImages, AppImageError>)
    ensures
        r is Ok <==> upload_ok(post_image_bytes) && avatar_ok(avatar_fetch),
        r matches Ok(v) ==> (v.post is Some <==> post_image_bytes is Some) && (v.avatar is Some
            <==> avatar_fetch is Some),
        r matches Ok(v) ==> (post_image_bytes matches Some(b) ==> (v.post matches Some(vb) && vb@
            == b@)),
        r matches Ok(v) ==> (avatar_fetch matches Some(f) ==> (f matches Ok(fb)
            && v.avatar matches Some(va) && va@ == fb@)),
        r matches Err(e) ==> !(e is Io),
        r matches Err(e) && e is Download ==> !fetch_delivered(avatar_fetch),
        r matches Err(e) && e is Decode ==> !upload_ok(post_image_bytes) || !avatar_ok(
            avatar_fetch,
        ),
        upload_ok(post_image_bytes) && !fetch_delivered(avatar_fetch) ==> (r matches Err(e)
            && e is Download),
        fetch_delivered(avatar_fetch) && !(upload_ok(post_image_bytes) && avatar_ok(avatar_fetch))
            ==> (r matches Err(e) && e is Decode),
{
    let post = match post_image_bytes {
        None => None,
        Some(bytes) => match decode_png(&bytes) {
            Ok(_) => Some(bytes),
            Err(m) => {
                return Err(AppImageError::Decode(m));
            },
        },
    };
    let avatar = match avatar_fetch {
        None => None,
        Some(Ok(bytes)) => match decode_png(&bytes) {
            Ok(_) => Some(bytes),
            Err(m) => {
                return Err(AppImageError::Decode(m));
            },
        },
        Some(Err(m)) => {
            return Err(AppImageError::Download(m));
        },
    };
    Ok(ValidatedImages { post, avatar })
}

/// One file the caller must write to finish a save: the PNG-encoded bytes,
/// at the path derived from the image's fresh identifier.
pub struct PreparedImage {
    /// Where the bytes belong on the file system.
    pub path: String,
    /// The PNG-encoded bytes to write there.
    pub png: Vec<u8>,
}

/// The save-preparation half of one save operation for an image already
/// named by `uuid`: derive the identifier's path and re-encode the
/// validated bytes as PNG. Validated bytes always re-encode, so this
/// cannot fail.
fn prepare_save(bytes: Vec<u8>, kind: ImageKind, uuid: &str) -> (r: PreparedImage)
    requires
        is_png(bytes@),
        is_uuid_text(uuid@),
    ensures
        r.path@ == path_spec(kind, uuid@),
        r.png@ == reencoded_png_of(bytes@),
{
    let png = match reencode_png(bytes) {
        Ok(b) => b,
        Err(_) => unreached(),
    };
    let path = derive_path(kind, uuid);
    PreparedImage { path, png }
}

/// An identifier of the same UUID text form that provably differs from `s`:
/// its first hex digit is replaced by another. Fresh draws are random, so
/// nothing can prove two of them distinct; when the store needs two
/// distinct identifiers it separates them with this on the astronomically
/// unlikely collision. The version digit is untouched, so the result keeps
/// the shape of a store-generated identifier.
fn divert_uuid(s: &String) -> (r: String)
    requires
        is_uuid_text(s@),
    ensures
        is_uuid_text(r@),
        r@ != s@,
{
    let head: &str = if s.as_str().get_char(0) == '0' {
        "1"
    } else {
        "0"
    };
    let rest = s.as_str().substring_char(1, 36);
    let swapped = head.to_owned().concat(rest);
    proof {
        reveal_strlit("0");
        reveal_strlit("1");
        assert(swapped@.len() == 36);
        assert(swapped@[0] != s@[0]);
        assert(is_hex_digit(swapped@[0]));
        assert forall|i: int| 1 <= i < 36 implies swapped@[i] == s@[i] by {
            assert(swapped@[i] == rest@[i - 1]);
        }
        assert(is_uuid_text(swapped@));
    }
    swapped
}

/// The outcome of combined processing: for each input that was present, a
/// fresh identifier and the PNG-encoded file the caller must write at the
/// identifier's derived path.
pub struct ProcessedImages {
    /// The named post image to write, if a direct upload was present.
    pub post: Option<(PostImagePath, PreparedImage)>,
    /// The named avatar image to write, if an avatar fetch was requested.
    pub avatar: Option<(AvatarImagePath, PreparedImage)>,
}

/// Preprocesses the post image bytes and the fetched avatar bytes, if
/// present: validate every present input as PNG, and only after all of them
/// passed, name each image and encode the files to be written. Processing
/// succeeds exactly when every present input is valid; a validation failure
/// for one input therefore aborts the whole operation before any file of
/// the other exists. When both inputs are present, their two fresh
/// identifiers are distinct: on the astronomically unlikely collision of
/// two draws, the store separates them deterministically.
pub fn process_images(
    post_image_bytes: Option<Vec<u8>>,
    avatar_fetch: Option<Result<Vec<u8>, String>>,
) -> (r: Result<ProcessedImages, AppImageError>)
    ensures
        r is Ok <==> upload_ok(post_image_bytes) && avatar_ok(avatar_fetch),
        r matches Ok(out) ==> {
            &&& out.post is Some <==> post_image_bytes is Some
            &&& out.avatar is Some <==> avatar_fetch is Some
            &&& out.post matches Some(p) ==> is_uuid_text(p.0@) && p.1.path@ == path_spec(
                ImageKind::Post,
                p.0@,
            )
            &&& out.avatar matches Some(a) ==> is_uuid_text(a.0@) && a.1.path@ == path_spec(
                ImageKind::Avatar,
                a.0@,
            )
            &&& post_image_bytes matches Some(b) ==> (out.post matches Some(p) && p.1.png@
                == reencoded_png_of(b@))
            &&& avatar_fetch matches Some(f) ==> (f matches Ok(fb) && out.avatar matches Some(a)
                && a.1.png@ == reencoded_png_of(fb@))
            &&& out.post matches Some(p) ==> (out.avatar matches Some(a) ==> p.0@ != a.0@)
        },
        r matches Err(e) ==> !(e is Io),
        r matches Err(e) && e is Download ==> !fetch_delivered(avatar_fetch),
        r matches Err(e) && e is Decode ==> !upload_ok(post_image_bytes) || !avatar_ok(
            avatar_fetch,
        ),
        upload_ok(post_image_bytes) && !fetch_delivered(avatar_fetch) ==> (r matches Err(e)
            && e is Download),
        fetch_delivered(avatar_fetch) && !(upload_ok(post_image_bytes) && avatar_ok(avatar_fetch))
            ==> (r matches Err(e) && e is Decode),
{
    let validated = match validate_images(post_image_bytes, avatar_fetch) {
        Ok(v) => v,
        Err(e) => {
            return Err(e);
        },
    };
    match (validated.post, validated.avatar) {
        (None, None) => Ok(ProcessedImages { post: None, avatar: None }),
        (Some(bytes), None) => {
            let uuid = fresh_uuid();
            let prepared = prepare_save(bytes, ImageKind::Post, uuid.as_str());
            Ok(
                ProcessedImages {
                    post: Some((PostImagePath::new(uuid), prepared)),
                    avatar: None,
                },
            )
        },
        (None, Some(bytes)) => {
            let uuid = fresh_uuid();
            let prepared = prepare_save(bytes, ImageKind::Avatar, uuid.as_str());
            Ok(
                ProcessedImages {
                    post: None,
                    avatar: Some((AvatarImagePath::new(uuid), prepared)),
                },
            )
        },
        (Some(post_bytes), Some(avatar_bytes)) => {
            let post_uuid = fresh_uuid();
            let drawn = fresh_uuid();
            let avatar_uuid = if drawn == post_uuid {
                divert_uuid(&drawn)
            } else {
                drawn
            };
            let post_prepared = prepare_save(post_bytes, ImageKind::Post, post_uuid.as_str());
            let avatar_prepared = prepare_save(
                avatar_bytes,
                ImageKind::Avatar,
                avatar_uuid.as_str(),
            );
            Ok(
                ProcessedImages {
                    post: Some((PostImagePath::new(post_uuid), post_prepared)),
                    avatar: Some((AvatarImagePath::new(avatar_uuid), avatar_prepared)),
                },
            )
        },
    }
}

/// The file a delete request must remove, if any: deleting an absent
/// identifier is a successful no-op that names no path at all.
pub fn post_delete_target(image_uuid: Option<&PostImagePath>) -> (r: Option<String>)
    requires
        image_uuid matches Some(p) ==> p@.len() >= 4,
    ensures
        r is None <==> image_uuid is None,
        image_uuid matches Some(p) ==> (r matches Some(path) && path@ == path_spec(
            ImageKind::Post,
            p@,
        )),
{
    match image_uuid {
        None => None,
        Some(p) => Some(p.path()),
    }
}

/// The file a delete request must remove, if any: deleting an absent
/// identifier is a successful no-op that names no path at all.
pub fn avatar_delete_target(image_uuid: Option<&AvatarImagePath>) -> (r: Option<String>)
    requires
        image_uuid matches Some(p) ==> p@.len() >= 4,
    ensures
        r is None <==> image_uuid is None,
        image_uuid matches Some(p) ==> (r matches Some(path) && path@ == path_spec(
            ImageKind::Avatar,
            p@,
        )),
{
    match image_uuid {
        None => None,
        Some(p) => Some(p.path()),
    }
}

/// The outcome policy of post-deletion cleanup: the two file removals are
/// best-effort, and their failures are deliberately discarded, so the
/// combined cleanup succeeds whatever the removals returned. Direct callers
/// of a bare delete still see its error; only this call site swallows it.
pub fn finish_cleanup(
    post_outcome: Result<(), AppImageError>,
    avatar_outcome: Result<(), AppImageError>,
) -> (r: Result<(), AppImageError>)
    ensures
        r is Ok,
{
    let _ = post_outcome;
    let _ = avatar_outcome;
    Ok(())
}

/// What the standard unpadded base64 engine returns for these bytes; used to
/// transport a loaded image to the client.
pub uninterp spec fn base64_of(bytes: Seq<u8>) -> Seq<char>;

/// Relies on base64's general_purpose::STANDARD_NO_PAD engine: the encoding
/// is a function of the bytes alone, and unpadded base64 emits four
/// characters for every three input bytes, plus two or three for a trailing
/// partial group. The engine panics when the output length overflows a
/// usize, so over-long inputs are ruled out.
#[verifier::external_body]
fn encode_base64(bytes: &Vec<u8>) -> (r: String)
    requires
        bytes@.len() <= usize::MAX / 4,
    ensures
        r@ == base64_of(bytes@),
        r@.len() == 4 * (bytes@.len() / 3) + (if bytes@.len() % 3 == 0 {
            0nat
        } else {
            bytes@.len() % 3 + 1
        }),
{
    base64::engine::general_purpose::STANDARD_NO_PAD.encode(bytes)
}

/// The compute half of answering an image fetch: a successfully loaded file
/// is returned base64-encoded without padding, and a failed load surfaces as
/// an I/O error carrying the loader's message.
pub fn load_image_response(loaded: Result<Vec<u8>, String>) -> (r: Result<String, AppImageError>)
    requires
        loaded matches Ok(b) ==> b@.len() <= usize::MAX / 4,
    ensures
        loaded matches Ok(b) ==> (r matches Ok(s) && s@ == base64_of(b@)),
        loaded matches Err(m) ==> (r matches Err(e) && e matches AppImageError::Io(m2) && m2@
            == m@),
{
    match loaded {
        Ok(b) => Ok(encode_base64(&b)),
        Err(m) => Err(AppImageError::Io(m)),
    }
}

/// Path derivation is a pure function of kind and identifier, so repeated
/// derivations of one pair agree. For one identifier, changing the kind
/// changes the directory prefix of the path but never the trailing file
/// name `<id>.png`, and the paths of the two kinds always differ.
pub proof fn lemma_path_kind_changes_dir_only(kind: ImageKind, id: Seq<char>)
    requires
        id.len() >= 4,
    ensures
        path_spec(kind, id) == shard_prefix_spec(kind, id) + file_name_spec(id),
        shard_prefix_spec(ImageKind::Post, id) != shard_prefix_spec(ImageKind::Avatar, id),
        path_spec(ImageKind::Post, id) != path_spec(ImageKind::Avatar, id),
{
    reveal_strlit("./images/");
    reveal_strlit("posts");
    reveal_strlit("avatars");
    reveal_strlit("/");
    reveal_strlit(".png");
    assert(shard_prefix_spec(ImageKind::Post, id).len() == 21);
    assert(shard_prefix_spec(ImageKind::Avatar, id).len() == 23);
    assert(path_spec(ImageKind::Post, id).len() != path_spec(ImageKind::Avatar, id).len());
}

/// Within one kind, the identifier determines the path: two images of the
/// same kind whose identifiers differ are stored at different paths.
/// Store-generated identifiers all have the same length, so distinct
/// identifiers never collide on disk.
pub proof fn lemma_distinct_ids_distinct_paths(kind: ImageKind, id1: Seq<char>, id2: Seq<char>)
    requires
        id1.len() >= 4,
        id2.len() >= 4,
        id1.len() == id2.len(),
        id1 != id2,
    ensures
        path_spec(kind, id1) != path_spec(kind, id2),
{
    reveal_strlit("./images/");
    reveal_strlit("posts");
    reveal_strlit("avatars");
    reveal_strlit("/");
    reveal_strlit(".png");
    let p1 = path_spec(kind, id1);
    let p2 = path_spec(kind, id2);
    let base = shard_prefix_spec(kind, id1).len();
    assert(shard_prefix_spec(kind, id2).len() == base);
    if p1 == p2 {
        assert forall|i: int| 0 <= i < id1.len() implies id1[i] == id2[i] by {
            assert(p1[base + i] == id1[i]);
            assert(p2[base + i] == id2[i]);
        }
        assert(id1 =~= id2);
    }
}

} // verus!
