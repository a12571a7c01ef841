//! Shared bot types: file kinds, callback payloads and photos being uploaded.
use vstd::prelude::*;
use crate::text::{
    hex_char, hex_char_injective, is_random_uuid, low_bits_keep_uuid_random, random_uuid, uuid_text,
    uuid_text_last, uuid_to_text, with_low_bits,
};

verus! {

/// The kinds of uploaded image files the bot distinguishes.
#[derive(Clone, Copy, Debug, PartialEq, Eq, Structural)]
pub enum FileType {
    Heic,
    Png,
    Jpeg,
}

impl FileType {
    /// The file extension used for files of this kind.
    pub open spec fn extension(self) -> Seq<char> {
        match self {
            FileType::Heic => seq!['h', 'e', 'i', 'c'],
            FileType::Png => seq!['p', 'n', 'g'],
            FileType::Jpeg => seq!['j', 'p', 'g'],
        }
    }

    /// Returns the file extension (without a dot) of this kind of file.
    pub fn get_extension(self) -> (ext: &'static str)
        ensures
            ext@ == self.extension(),
    {
        match self {
            FileType::Heic => {
                proof {
                    reveal_strlit("heic");
                }
                "heic"
            },
            FileType::Png => {
                proof {
                    reveal_strlit("png");
                }
                "png"
            },
            FileType::Jpeg => {
                proof {
                    reveal_strlit("jpg");
                }
                "jpg"
            },
        }
    }
}


/// The file kind that a media-type subtype stands for: HEIC for `heic` and
/// `heif`, PNG for `png`, JPEG for any other subtype and where the media type
/// could not be read.
pub open spec fn kind_of_subtype(subtype: Option<Seq<char>>) -> FileType {
    match subtype {
        Some(s) => if s == seq!['h', 'e', 'i', 'c'] || s == seq!['h', 'e', 'i', 'f'] {
            FileType::Heic
        } else if s == seq!['p', 'n', 'g'] {
            FileType::Png
        } else {
            FileType::Jpeg
        },
        None => FileType::Jpeg,
    }
}

/// The file kind of a document with the given media type text (such as
/// `image/png`), or JPEG where there is none.
pub open spec fn kind_of_mime(mime_type: Option<Seq<char>>) -> FileType {
    match mime_type {
        Some(t) => kind_of_subtype(mime_subtype(t)),
        None => FileType::Jpeg,
    }
}

/// The subtype (lower-cased, without suffix or parameters) that the `mime`
/// crate reads from a media type text, or `None` where it rejects the text.
pub uninterp spec fn mime_subtype(text: Seq<char>) -> Option<Seq<char>>;

/// Parses `text` with `mime::Mime::from_str` and returns the `subtype()` of
/// the parsed media type as text, or `None` when parsing fails. The contract
/// only ties the result to `text` through `mime_subtype`; which texts the
/// parser accepts, and how it reads them, is not restated here.
#[verifier::external_body]
fn parse_mime_subtype(text: &str) -> (sub: Option<String>)
    ensures
        text_of(sub) == mime_subtype(text@),
{
    match text.parse::<mime::Mime>() {
        Ok(parsed) => Some(parsed.subtype().as_str().to_string()),
        Err(_) => None,
    }
}

/// Whether two texts are equal.
fn same_text(a: &str, b: &str) -> (same: bool)
    ensures
        same == (a@ == b@),
{
    let a_owned = String::from_str(a);
    let b_owned = String::from_str(b);
    a_owned == b_owned
}

impl FileType {
    /// The file kind for a media-type subtype, as `kind_of_subtype` says.
    pub fn from_subtype(subtype: Option<&str>) -> (kind: FileType)
        ensures
            kind == kind_of_subtype(match subtype {
                Some(s) => Some(s@),
                None => None,
            }),
    {
        proof {
            reveal_strlit("heic");
            reveal_strlit("heif");
            reveal_strlit("png");
            assert("heic"@ =~= seq!['h', 'e', 'i', 'c']);
            assert("heif"@ =~= seq!['h', 'e', 'i', 'f']);
            assert("png"@ =~= seq!['p', 'n', 'g']);
        }
        match subtype {
            Some(s) => {
                if same_text(s, "heic") || same_text(s, "heif") {
                    FileType::Heic
                } else if same_text(s, "png") {
                    FileType::Png
                } else {
                    FileType::Jpeg
                }
            },
            None => FileType::Jpeg,
        }
    }

    /// The file kind of a document with media type `mime_type`: the media
    /// type is read with the `mime` crate, and its subtype decides.
    pub fn from_mime(mime_type: &str) -> (kind: FileType)
        ensures
            kind == kind_of_mime(Some(mime_type@)),
    {
        let subtype = parse_mime_subtype(mime_type);
        match subtype {
            Some(s) => FileType::from_subtype(Some(s.as_str())),
            None => FileType::from_subtype(None),
        }
    }
}

impl From<&str> for FileType {
    fn from(value: &str) -> (kind: FileType)
        ensures
            kind == kind_of_mime(Some(value@)),
    {
        FileType::from_mime(value)
    }
}

impl vstd::std_specs::convert::FromSpecImpl<&str> for FileType {
    open spec fn obeys_from_spec() -> bool {
        true
    }

    open spec fn from_spec(value: &str) -> FileType {
        kind_of_mime(Some(value@))
    }
}

impl From<String> for FileType {
    fn from(value: String) -> (kind: FileType)
        ensures
            kind == kind_of_mime(Some(value@)),
    {
        FileType::from_mime(value.as_str())
    }
}

impl vstd::std_specs::convert::FromSpecImpl<String> for FileType {
    open spec fn obeys_from_spec() -> bool {
        true
    }

    open spec fn from_spec(value: String) -> FileType {
        kind_of_mime(Some(value@))
    }
}

impl From<Option<String>> for FileType {
    fn from(value: Option<String>) -> (kind: FileType)
        ensures
            kind == kind_of_mime(text_of(value)),
    {
        match value {
            Some(t) => FileType::from_mime(t.as_str()),
            None => FileType::Jpeg,
        }
    }
}

impl vstd::std_specs::convert::FromSpecImpl<Option<String>> for FileType {
    open spec fn obeys_from_spec() -> bool {
        true
    }

    open spec fn from_spec(value: Option<String>) -> FileType {
        kind_of_mime(text_of(value))
    }
}

impl From<&Option<String>> for FileType {
    fn from(value: &Option<String>) -> (kind: FileType)
        ensures
            kind == kind_of_mime(text_of(*value)),
    {
        match value {
            Some(t) => FileType::from_mime(t.as_str()),
            None => FileType::Jpeg,
        }
    }
}

impl vstd::std_specs::convert::FromSpecImpl<&Option<String>> for FileType {
    open spec fn obeys_from_spec() -> bool {
        true
    }

    open spec fn from_spec(value: &Option<String>) -> FileType {
        kind_of_mime(text_of(*value))
    }
}

/// The operation an inline button asks for.
#[derive(Clone, Copy, Debug, PartialEq, Eq, Structural)]
pub enum CallbackOperation {
    Approve,
    Decline,
    Cancel,
}

/// The payload carried by an inline button: the operation and, for
/// moderation buttons, the photo it is about.
#[derive(Clone, Copy, Debug, PartialEq, Eq, Structural)]
pub struct CallbackData {
    pub operation: CallbackOperation,
    /// The photo's id (a UUID, by its 128-bit big-endian value).
    pub document: Option<u128>,
}

impl CallbackData {
    /// A payload for `operation` that is about no photo.
    pub fn new(operation: CallbackOperation) -> (data: CallbackData)
        ensures
            data.operation == operation,
            data.document is None,
    {
        CallbackData { operation, document: None }
    }
}

/// Errors when preparing an uploaded photo.
#[derive(Debug)]
pub enum BotError {
    FileNotExists(String),
    GetMetadataFailed(String),
    ConvertingFailed(String),
}

/// A `BotError` with its message as text.
pub enum BotErrorView {
    FileNotExists(Seq<char>),
    GetMetadataFailed(Seq<char>),
    ConvertingFailed(Seq<char>),
}

impl View for BotError {
    type V = BotErrorView;

    open spec fn view(&self) -> BotErrorView {
        match self {
            BotError::FileNotExists(m) => BotErrorView::FileNotExists(m@),
            BotError::GetMetadataFailed(m) => BotErrorView::GetMetadataFailed(m@),
            BotError::ConvertingFailed(m) => BotErrorView::ConvertingFailed(m@),
        }
    }
}

/// How a photo is to be rescaled.
#[derive(Clone, Copy, Debug, PartialEq, Eq, Structural)]
pub enum Rescale {
    /// To half its width and height.
    Half,
    /// Down to the largest size whose width and height are at most the given number of pixels.
    FitWithin(u32),
}

/// How the `heif-convert` tool ended.
#[derive(Debug)]
pub struct ConverterExit {
    /// Whether it reported success.
    pub success: bool,
    /// Its exit status as text.
    pub status: String,
}

/// Work on files and images that preparing a photo asks for.
#[derive(Debug)]
pub enum FileWork {
    /// Tell whether the file exists.
    CheckExists { path: String },
    /// Run `heif-convert -q 90 <from> <to>`.
    ConvertHeif { from: String, to: String },
    /// Copy a file; a failed copy is ignored.
    Copy { from: String, to: String },
    /// Read the size of the file in bytes.
    ReadSize { path: String },
    /// Rescale the loaded image and save it to the file.
    Rescale { scale: Rescale, path: String },
    /// Read the width and height of the loaded image.
    ReadDimensions,
    /// Remove the file.
    Remove { path: String },
    /// The preparation step is over, with this outcome.
    Finished(Result<(), BotError>),
    /// Removing the files is over: whether every file was removed.
    Deleted(bool),
}

/// A `FileWork` with its texts as character sequences.
pub enum FileWorkView {
    CheckExists(Seq<char>),
    ConvertHeif(Seq<char>, Seq<char>),
    Copy(Seq<char>, Seq<char>),
    ReadSize(Seq<char>),
    Rescale(Rescale, Seq<char>),
    ReadDimensions,
    Remove(Seq<char>),
    Finished(Result<(), BotErrorView>),
    Deleted(bool),
}

impl View for FileWork {
    type V = FileWorkView;

    open spec fn view(&self) -> FileWorkView {
        match self {
            FileWork::CheckExists { path } => FileWorkView::CheckExists(path@),
            FileWork::ConvertHeif { from, to } => FileWorkView::ConvertHeif(from@, to@),
            FileWork::Copy { from, to } => FileWorkView::Copy(from@, to@),
            FileWork::ReadSize { path } => FileWorkView::ReadSize(path@),
            FileWork::Rescale { scale, path } => FileWorkView::Rescale(*scale, path@),
            FileWork::ReadDimensions => FileWorkView::ReadDimensions,
            FileWork::Remove { path } => FileWorkView::Remove(path@),
            FileWork::Finished(r) => FileWorkView::Finished(
                match r {
                    Ok(()) => Ok(()),
                    Err(e) => Err(e@),
                },
            ),
            FileWork::Deleted(b) => FileWorkView::Deleted(*b),
        }
    }
}

/// What came of the last piece of `FileWork`.
#[derive(Debug)]
pub enum FileEvent {
    /// The step begins; nothing has been done yet.
    Begin,
    /// Whether the file exists.
    Exists(bool),
    /// How `heif-convert` ended, or `None` where it could not be run.
    Converted(Option<ConverterExit>),
    /// The copy was attempted.
    Copied,
    /// The file's size in bytes, or the error text of reading it.
    Size(Result<u64, String>),
    /// Whether the rescaled image was saved.
    Rescaled(bool),
    /// The loaded image's width and height.
    Dimensions(u32, u32),
    /// Whether the file was removed.
    Removed(bool),
}

/// Where `PhotoToUpload::convert` stands.
#[derive(Clone, Copy, Debug, PartialEq, Eq, Structural)]
pub enum ConvertPhase {
    Start,
    CheckingDocument,
    Converting,
    CopyingConverted,
    CopyingPhoto,
    CopyingJpeg,
    Done,
}

/// Where `PhotoToUpload::check` stands.
#[derive(Clone, Copy, Debug, PartialEq, Eq, Structural)]
pub enum CheckPhase {
    Start,
    ReadingSize,
    ShrinkingFile,
    ReadingDimensions,
    FittingDimensions,
    Done,
}

/// Where `PhotoToUpload::delete_all` stands: `Removing(i)` waits for the
/// removal of the `i`-th file (document, photo, JPEG copy, thumbnail).
#[derive(Clone, Copy, Debug, PartialEq, Eq, Structural)]
pub enum DeletePhase {
    Start,
    Removing(u8),
    Done,
}

/// Files larger than this many bytes are shrunk to half their width and height.
pub const MAX_PHOTO_BYTES: u64 = 10485760;

/// Photos wider or higher than this many pixels are scaled down to fit.
pub const MAX_PHOTO_SIDE: u32 = 4000;

/// The text of an optional string.
pub open spec fn text_of(o: Option<String>) -> Option<Seq<char>> {
    match o {
        Some(s) => Some(s@),
        None => None,
    }
}

/// What the EXIF data of an uploaded document tells.
#[derive(Debug)]
pub struct ExifInfo {
    /// The camera's maker and model.
    pub maker_model: Option<String>,
    /// A one-line summary of the shot (aperture, exposure, and so on).
    pub photo_info: Option<String>,
}

/// The lines describing a photo's EXIF data: the camera, then the shot
/// summary, each where known, and an empty line after them when there are any.
pub open spec fn exif_lines(maker_model: Option<Seq<char>>, photo_info: Option<Seq<char>>) -> Seq<
    Seq<char>,
> {
    let camera: Seq<Seq<char>> = match maker_model {
        Some(m) => seq!["📸 Снято на: "@ + m],
        None => seq![],
    };
    let shot: Seq<Seq<char>> = match photo_info {
        Some(p) => seq!["ℹ️ "@ + p],
        None => seq![],
    };
    let lines = camera + shot;
    if lines.len() > 0 {
        lines.push(Seq::empty())
    } else {
        lines
    }
}

/// A photo sent as a document, with the temporary files it is prepared in.
#[derive(Debug)]
pub struct PhotoToUpload {
    file_type: FileType,
    doc_path: String,
    photo_path: String,
    jpeg_path: String,
    thumb_path: String,
}

/// The temporary file `/tmp/<uuid>.<ext>`.
pub open spec fn tmp_file_path(id: u128, ext: Seq<char>) -> Seq<char> {
    "/tmp/"@ + uuid_text(id) + seq!['.'] + ext
}

/// The kind the published photo is kept in: PNG stays PNG, anything else
/// becomes JPEG.
pub open spec fn photo_kind(kind: FileType) -> FileType {
    if kind == FileType::Png {
        FileType::Png
    } else {
        FileType::Jpeg
    }
}

/// Renders the temporary file path `/tmp/<uuid>.<ext>`.
pub fn tmp_path(id: u128, ext: &str) -> (path: String)
    ensures
        path@ == tmp_file_path(id, ext@),
{
    proof {
        reveal_strlit(".");
    }
    let mut path = String::from_str("/tmp/");
    let id_text = uuid_to_text(id);
    path.append(id_text.as_str());
    path.append(".");
    path.append(ext);
    path
}

/// The `s`-th neighbour of UUID `id` (`0 <= s < 4`): `id` with its two
/// lowest bits counted on by `s`, so that the 0-th neighbour is `id` itself.
pub open spec fn neighbour(id: u128, s: int) -> u128 {
    with_low_bits(id, ((id % 4 + s) % 4) as u128)
}

/// Character 40 of a temporary file path is the last digit of its UUID.
proof fn tmp_file_path_last_digit(u: u128, ext: Seq<char>)
    ensures
        tmp_file_path(u, ext).len() > 40,
        tmp_file_path(u, ext)[40] == hex_char((u % 16) as int),
{
    reveal_strlit("/tmp/");
    uuid_text_last(u);
    assert(("/tmp/"@ + uuid_text(u))[40] == uuid_text(u)[35]);
}

/// The paths that the four neighbours of a UUID name are pairwise distinct.
proof fn neighbour_paths_differ(id: u128, ext: Seq<char>, s: int, t: int)
    requires
        0 <= s < 4,
        0 <= t < 4,
        s != t,
    ensures
        tmp_file_path(neighbour(id, s), ext) != tmp_file_path(neighbour(id, t), ext),
{
    let ks = ((id % 4 + s) % 4) as u128;
    let kt = ((id % 4 + t) % 4) as u128;
    low_bits_keep_uuid_random(id, ks);
    low_bits_keep_uuid_random(id, kt);
    assert(ks != kt);
    let cs = neighbour(id, s);
    let ct = neighbour(id, t);
    assert(cs % 16 != ct % 16);
    hex_char_injective((cs % 16) as int, (ct % 16) as int);
    tmp_file_path_last_digit(cs, ext);
    tmp_file_path_last_digit(ct, ext);
}

/// Whether `path` is one of `taken`.
fn is_taken(path: &String, taken: &Vec<String>) -> (found: bool)
    ensures
        found == exists|i: int| 0 <= i < taken.len() && taken[i]@ == path@,
{
    let mut i: usize = 0;
    while i < taken.len()
        invariant
            i <= taken.len(),
            forall|j: int| 0 <= j < i ==> taken[j]@ != path@,
        decreases taken.len() - i,
    {
        if same_text(taken[i].as_str(), path.as_str()) {
            assert(taken[i as int]@ == path@);
            return true;
        }
        i = i + 1;
    }
    false
}

/// Renders the path of a new temporary file `/tmp/<uuid>.<ext>` that is
/// none of the paths in `taken`: named by `id` where that path is free,
/// else by the first neighbour of `id` (see `neighbour`) whose path is free.
/// With at most three paths taken, one of the four neighbours is free.
fn fresh_tmp_path(id: u128, ext: &str, taken: &Vec<String>) -> (path: String)
    requires
        taken.len() <= 3,
    ensures
        exists|s: int| 0 <= s < 4 && path@ == tmp_file_path(neighbour(id, s), ext@),
        is_random_uuid(id) ==> exists|u: u128| is_random_uuid(u) && path@ == tmp_file_path(u, ext@),
        forall|i: int| 0 <= i < taken.len() ==> taken[i]@ != path@,
        (forall|i: int| 0 <= i < taken.len() ==> taken[i]@ != tmp_file_path(id, ext@)) ==> path@
            == tmp_file_path(id, ext@),
{
    let r: u128 = id % 4;
    proof {
        low_bits_keep_uuid_random(id, r);
        assert(neighbour(id, 0) == id);
    }
    let mut t: u128 = 0;
    while t < 4
        invariant
            t <= 4,
            r == id % 4,
            neighbour(id, 0) == id,
            forall|s: int|
                0 <= s < t ==> exists|i: int|
                    0 <= i < taken.len() && taken[i]@ == tmp_file_path(#[trigger] neighbour(id, s), ext@),
        decreases 4 - t,
    {
        let k: u128 = (r + t) % 4;
        let candidate: u128 = (id & 0xffff_ffff_ffff_ffff_ffff_ffff_ffff_fffc) | k;
        assert(candidate == neighbour(id, t as int));
        let path = tmp_path(candidate, ext);
        if !is_taken(&path, taken) {
            proof {
                low_bits_keep_uuid_random(id, k);
                if t > 0 {
                    assert(exists|i: int|
                        0 <= i < taken.len() && taken[i]@ == tmp_file_path(neighbour(id, 0), ext@));
                }
            }
            return path;
        }
        t = t + 1;
    }
    proof {
        let ghost p0 = tmp_file_path(neighbour(id, 0), ext@);
        let ghost p1 = tmp_file_path(neighbour(id, 1), ext@);
        let ghost p2 = tmp_file_path(neighbour(id, 2), ext@);
        let ghost p3 = tmp_file_path(neighbour(id, 3), ext@);
        let i0 = choose|i: int| 0 <= i < taken.len() && taken[i]@ == p0;
        let i1 = choose|i: int| 0 <= i < taken.len() && taken[i]@ == p1;
        let i2 = choose|i: int| 0 <= i < taken.len() && taken[i]@ == p2;
        let i3 = choose|i: int| 0 <= i < taken.len() && taken[i]@ == p3;
        neighbour_paths_differ(id, ext@, 0, 1);
        neighbour_paths_differ(id, ext@, 0, 2);
        neighbour_paths_differ(id, ext@, 0, 3);
        neighbour_paths_differ(id, ext@, 1, 2);
        neighbour_paths_differ(id, ext@, 1, 3);
        neighbour_paths_differ(id, ext@, 2, 3);
        assert(false);
    }
    tmp_path(id, ext)
}

impl PhotoToUpload {
    /// Prepares fresh temporary files for a document of kind `file_type`:
    /// the document keeps its own extension, the photo is PNG or JPEG (see
    /// `photo_kind`), the JPEG copy and the thumbnail are JPEG. Each file is
    /// named by a fresh random version-4 UUID (see `is_random_uuid`); which
    /// UUIDs are drawn is left to chance. The four files are always distinct:
    /// should a drawn UUID name a path already given, a neighbour of it names
    /// the file instead (see `fresh_tmp_path`).
    pub fn new(file_type: &FileType) -> (p: PhotoToUpload)
        ensures
            p.kind() == *file_type,
            exists|u: u128| is_random_uuid(u) && p.doc_file() == tmp_file_path(u, file_type.extension()),
            exists|u: u128| is_random_uuid(u) && p.photo_file() == tmp_file_path(u, photo_kind(*file_type).extension()),
            exists|u: u128| is_random_uuid(u) && p.jpeg_file() == tmp_file_path(u, FileType::Jpeg.extension()),
            exists|u: u128| is_random_uuid(u) && p.thumb_file() == tmp_file_path(u, FileType::Jpeg.extension()),
            p.doc_file() != p.photo_file(),
            p.doc_file() != p.jpeg_file(),
            p.doc_file() != p.thumb_file(),
            p.photo_file() != p.jpeg_file(),
            p.photo_file() != p.thumb_file(),
            p.jpeg_file() != p.thumb_file(),
    {
        let mut taken: Vec<String> = Vec::new();
        let photo_id = random_uuid();
        let photo_path = match file_type {
            FileType::Png => fresh_tmp_path(photo_id, FileType::Png.get_extension(), &taken),
            _ => fresh_tmp_path(photo_id, FileType::Jpeg.get_extension(), &taken),
        };
        taken.push(photo_path.clone());
        let doc_id = random_uuid();
        let doc_path = fresh_tmp_path(doc_id, file_type.get_extension(), &taken);
        taken.push(doc_path.clone());
        let jpeg_id = random_uuid();
        let jpeg_path = fresh_tmp_path(jpeg_id, FileType::Jpeg.get_extension(), &taken);
        taken.push(jpeg_path.clone());
        let thumb_id = random_uuid();
        let thumb_path = fresh_tmp_path(thumb_id, FileType::Jpeg.get_extension(), &taken);
        proof {
            assert(taken[0]@ == photo_path@);
            assert(taken[1]@ == doc_path@);
            assert(taken[2]@ == jpeg_path@);
        }
        PhotoToUpload { doc_path, photo_path, jpeg_path, thumb_path, file_type: *file_type }
    }

    pub closed spec fn kind(&self) -> FileType {
        self.file_type
    }

    /// Where the document as received is stored.
    pub closed spec fn doc_file(&self) -> Seq<char> {
        self.doc_path@
    }

    /// Where the photo to be published is stored.
    pub closed spec fn photo_file(&self) -> Seq<char> {
        self.photo_path@
    }

    /// Where the JPEG copy is stored.
    pub closed spec fn jpeg_file(&self) -> Seq<char> {
        self.jpeg_path@
    }

    /// Where the thumbnail is stored.
    pub closed spec fn thumb_file(&self) -> Seq<char> {
        self.thumb_path@
    }

    /// The message of a missing document: `File <path> not exists!`.
    pub open spec fn missing_file_message(path: Seq<char>) -> Seq<char> {
        "File "@ + path + " not exists!"@
    }

    /// The message of a failed conversion: `Converting failed: <status>`.
    pub open spec fn failed_conversion_message(status: Seq<char>) -> Seq<char> {
        "Converting failed: "@ + status
    }

    /// The message of an unreadable file size: `Get metadata failed: <error>`.
    pub open spec fn failed_metadata_message(error: Seq<char>) -> Seq<char> {
        "Get metadata failed: "@ + error
    }

    /// Whether `convert` can take `event` in `phase`.
    pub open spec fn convert_accepts(phase: ConvertPhase, event: FileEvent) -> bool {
        match (phase, event) {
            (ConvertPhase::Start, FileEvent::Begin) => true,
            (ConvertPhase::CheckingDocument, FileEvent::Exists(_)) => true,
            (ConvertPhase::Converting, FileEvent::Converted(_)) => true,
            (ConvertPhase::CopyingConverted, FileEvent::Copied) => true,
            (ConvertPhase::CopyingPhoto, FileEvent::Copied) => true,
            (ConvertPhase::CopyingJpeg, FileEvent::Copied) => true,
            _ => false,
        }
    }

    /// Whether `convert` can take `event` in `phase` (see `convert_accepts`).
    pub fn convert_can_take(phase: ConvertPhase, event: &FileEvent) -> (ok: bool)
        ensures
            ok == Self::convert_accepts(phase, *event),
    {
        match (phase, event) {
            (ConvertPhase::Start, FileEvent::Begin) => true,
            (ConvertPhase::CheckingDocument, FileEvent::Exists(_)) => true,
            (ConvertPhase::Converting, FileEvent::Converted(_)) => true,
            (ConvertPhase::CopyingConverted, FileEvent::Copied) => true,
            (ConvertPhase::CopyingPhoto, FileEvent::Copied) => true,
            (ConvertPhase::CopyingJpeg, FileEvent::Copied) => true,
            _ => false,
        }
    }

    /// Whether `check` can take `event` in `phase` (see `check_accepts`).
    pub fn check_can_take(phase: CheckPhase, event: &FileEvent) -> (ok: bool)
        ensures
            ok == Self::check_accepts(phase, *event),
    {
        match (phase, event) {
            (CheckPhase::Start, FileEvent::Begin) => true,
            (CheckPhase::ReadingSize, FileEvent::Size(_)) => true,
            (CheckPhase::ShrinkingFile, FileEvent::Rescaled(_)) => true,
            (CheckPhase::ReadingDimensions, FileEvent::Dimensions(_, _)) => true,
            (CheckPhase::FittingDimensions, FileEvent::Rescaled(_)) => true,
            _ => false,
        }
    }

    /// Whether `delete_all` can take `event` in `phase` (see `delete_accepts`).
    pub fn delete_can_take(phase: DeletePhase, event: &FileEvent) -> (ok: bool)
        ensures
            ok == Self::delete_accepts(phase, *event),
    {
        match (phase, event) {
            (DeletePhase::Start, FileEvent::Begin) => true,
            (DeletePhase::Removing(i), FileEvent::Removed(_)) => i < 4,
            _ => false,
        }
    }

    /// Converting the document into the photo and its JPEG copy: check that
    /// the document exists (else fail); a HEIC document is converted to the
    /// photo with `heif-convert`, which fails where the tool reports failure,
    /// and the photo is then copied to the JPEG copy (where the tool could not
    /// be run at all, nothing more is done); any other document is copied to
    /// the photo and to the JPEG copy.
    pub open spec fn convert_next(self, phase: ConvertPhase, event: FileEvent) -> (
        ConvertPhase,
        FileWorkView,
    ) {
        match (phase, event) {
            (ConvertPhase::Start, FileEvent::Begin) => (
                ConvertPhase::CheckingDocument,
                FileWorkView::CheckExists(self.doc_file()),
            ),
            (ConvertPhase::CheckingDocument, FileEvent::Exists(exists)) => if !exists {
                (
                    ConvertPhase::Done,
                    FileWorkView::Finished(
                        Err(BotErrorView::FileNotExists(Self::missing_file_message(self.doc_file()))),
                    ),
                )
            } else if self.kind() == FileType::Heic {
                (ConvertPhase::Converting, FileWorkView::ConvertHeif(self.doc_file(), self.photo_file()))
            } else {
                (ConvertPhase::CopyingPhoto, FileWorkView::Copy(self.doc_file(), self.photo_file()))
            },
            (ConvertPhase::Converting, FileEvent::Converted(exit)) => match exit {
                None => (ConvertPhase::Done, FileWorkView::Finished(Ok(()))),
                Some(e) => if e.success {
                    (
                        ConvertPhase::CopyingConverted,
                        FileWorkView::Copy(self.photo_file(), self.jpeg_file()),
                    )
                } else {
                    (
                        ConvertPhase::Done,
                        FileWorkView::Finished(
                            Err(
                                BotErrorView::ConvertingFailed(
                                    Self::failed_conversion_message(e.status@),
                                ),
                            ),
                        ),
                    )
                },
            },
            (ConvertPhase::CopyingPhoto, FileEvent::Copied) => (
                ConvertPhase::CopyingJpeg,
                FileWorkView::Copy(self.doc_file(), self.jpeg_file()),
            ),
            _ => (ConvertPhase::Done, FileWorkView::Finished(Ok(()))),
        }
    }

    /// Takes the next step of converting the document (see `convert_next`):
    /// given what came of the last piece of work, returns the next phase and
    /// the work to do.
    pub fn convert(&self, phase: ConvertPhase, event: FileEvent) -> (next: (ConvertPhase, FileWork))
        requires
            Self::convert_accepts(phase, event),
        ensures
            next.0 == self.convert_next(phase, event).0,
            next.1@ == self.convert_next(phase, event).1,
    {
        match event {
            FileEvent::Begin => (
                ConvertPhase::CheckingDocument,
                FileWork::CheckExists { path: self.doc_path.clone() },
            ),
            FileEvent::Exists(exists) => {
                if !exists {
                    let mut message = String::from_str("File ");
                    message.append(self.doc_path.as_str());
                    message.append(" not exists!");
                    (ConvertPhase::Done, FileWork::Finished(Err(BotError::FileNotExists(message))))
                } else if self.file_type == FileType::Heic {
                    (
                        ConvertPhase::Converting,
                        FileWork::ConvertHeif {
                            from: self.doc_path.clone(),
                            to: self.photo_path.clone(),
                        },
                    )
                } else {
                    (
                        ConvertPhase::CopyingPhoto,
                        FileWork::Copy { from: self.doc_path.clone(), to: self.photo_path.clone() },
                    )
                }
            },
            FileEvent::Converted(exit) => match exit {
                None => (ConvertPhase::Done, FileWork::Finished(Ok(()))),
                Some(e) => {
                    if e.success {
                        (
                            ConvertPhase::CopyingConverted,
                            FileWork::Copy {
                                from: self.photo_path.clone(),
                                to: self.jpeg_path.clone(),
                            },
                        )
                    } else {
                        let mut message = String::from_str("Converting failed: ");
                        message.append(e.status.as_str());
                        (
                            ConvertPhase::Done,
                            FileWork::Finished(Err(BotError::ConvertingFailed(message))),
                        )
                    }
                },
            },
            _ => {
                if phase == ConvertPhase::CopyingPhoto {
                    (
                        ConvertPhase::CopyingJpeg,
                        FileWork::Copy { from: self.doc_path.clone(), to: self.jpeg_path.clone() },
                    )
                } else {
                    (ConvertPhase::Done, FileWork::Finished(Ok(())))
                }
            },
        }
    }

    /// Whether `check` can take `event` in `phase`.
    pub open spec fn check_accepts(phase: CheckPhase, event: FileEvent) -> bool {
        match (phase, event) {
            (CheckPhase::Start, FileEvent::Begin) => true,
            (CheckPhase::ReadingSize, FileEvent::Size(_)) => true,
            (CheckPhase::ShrinkingFile, FileEvent::Rescaled(_)) => true,
            (CheckPhase::ReadingDimensions, FileEvent::Dimensions(_, _)) => true,
            (CheckPhase::FittingDimensions, FileEvent::Rescaled(_)) => true,
            _ => false,
        }
    }

    /// Checking the photo's size with the photo loaded as an image: read the
    /// file's size (failing where it cannot be read); a file over
    /// `MAX_PHOTO_BYTES` is shrunk to half and saved; then an image wider or
    /// higher than `MAX_PHOTO_SIDE` is scaled to fit and saved. A failed save
    /// does not stop the check.
    pub open spec fn check_next(self, phase: CheckPhase, event: FileEvent) -> (
        CheckPhase,
        FileWorkView,
    ) {
        match (phase, event) {
            (CheckPhase::Start, FileEvent::Begin) => (
                CheckPhase::ReadingSize,
                FileWorkView::ReadSize(self.photo_file()),
            ),
            (CheckPhase::ReadingSize, FileEvent::Size(size)) => match size {
                Err(e) => (
                    CheckPhase::Done,
                    FileWorkView::Finished(
                        Err(BotErrorView::GetMetadataFailed(Self::failed_metadata_message(e@))),
                    ),
                ),
                Ok(len) => if len > MAX_PHOTO_BYTES {
                    (CheckPhase::ShrinkingFile, FileWorkView::Rescale(Rescale::Half, self.photo_file()))
                } else {
                    (CheckPhase::ReadingDimensions, FileWorkView::ReadDimensions)
                },
            },
            (CheckPhase::ShrinkingFile, FileEvent::Rescaled(_)) => (
                CheckPhase::ReadingDimensions,
                FileWorkView::ReadDimensions,
            ),
            (CheckPhase::ReadingDimensions, FileEvent::Dimensions(width, height)) => if width
                > MAX_PHOTO_SIDE || height > MAX_PHOTO_SIDE {
                (
                    CheckPhase::FittingDimensions,
                    FileWorkView::Rescale(Rescale::FitWithin(MAX_PHOTO_SIDE), self.photo_file()),
                )
            } else {
                (CheckPhase::Done, FileWorkView::Finished(Ok(())))
            },
            _ => (CheckPhase::Done, FileWorkView::Finished(Ok(()))),
        }
    }

    /// Takes the next step of checking the photo's size (see `check_next`).
    pub fn check(&self, phase: CheckPhase, event: FileEvent) -> (next: (CheckPhase, FileWork))
        requires
            Self::check_accepts(phase, event),
        ensures
            next.0 == self.check_next(phase, event).0,
            next.1@ == self.check_next(phase, event).1,
    {
        match event {
            FileEvent::Begin => (CheckPhase::ReadingSize, FileWork::ReadSize { path: self.photo_path.clone() }),
            FileEvent::Size(size) => match size {
                Err(e) => {
                    let mut message = String::from_str("Get metadata failed: ");
                    message.append(e.as_str());
                    (CheckPhase::Done, FileWork::Finished(Err(BotError::GetMetadataFailed(message))))
                },
                Ok(len) => {
                    if len > MAX_PHOTO_BYTES {
                        (
                            CheckPhase::ShrinkingFile,
                            FileWork::Rescale { scale: Rescale::Half, path: self.photo_path.clone() },
                        )
                    } else {
                        (CheckPhase::ReadingDimensions, FileWork::ReadDimensions)
                    }
                },
            },
            FileEvent::Dimensions(width, height) => {
                if width > MAX_PHOTO_SIDE || height > MAX_PHOTO_SIDE {
                    (
                        CheckPhase::FittingDimensions,
                        FileWork::Rescale {
                            scale: Rescale::FitWithin(MAX_PHOTO_SIDE),
                            path: self.photo_path.clone(),
                        },
                    )
                } else {
                    (CheckPhase::Done, FileWork::Finished(Ok(())))
                }
            },
            _ => {
                if phase == CheckPhase::ShrinkingFile {
                    (CheckPhase::ReadingDimensions, FileWork::ReadDimensions)
                } else {
                    (CheckPhase::Done, FileWork::Finished(Ok(())))
                }
            },
        }
    }

    /// The files of this upload, in the order they are removed: the
    /// document, the photo, the JPEG copy, the thumbnail.
    pub open spec fn file_at(self, i: int) -> Seq<char> {
        if i == 0 {
            self.doc_file()
        } else if i == 1 {
            self.photo_file()
        } else if i == 2 {
            self.jpeg_file()
        } else {
            self.thumb_file()
        }
    }

    /// Whether `delete_all` can take `event` in `phase`.
    pub open spec fn delete_accepts(phase: DeletePhase, event: FileEvent) -> bool {
        match (phase, event) {
            (DeletePhase::Start, FileEvent::Begin) => true,
            (DeletePhase::Removing(i), FileEvent::Removed(_)) => i < 4,
            _ => false,
        }
    }

    /// Removing every file of the upload, in the order of `file_at`: the
    /// first failed removal ends it with `false`; after the last removal it
    /// ends with `true`.
    pub open spec fn delete_next(self, phase: DeletePhase, event: FileEvent) -> (
        DeletePhase,
        FileWorkView,
    ) {
        match (phase, event) {
            (DeletePhase::Removing(i), FileEvent::Removed(removed)) => if !removed {
                (DeletePhase::Done, FileWorkView::Deleted(false))
            } else if i < 3 {
                (DeletePhase::Removing((i + 1) as u8), FileWorkView::Remove(self.file_at(i + 1)))
            } else {
                (DeletePhase::Done, FileWorkView::Deleted(true))
            },
            _ => (DeletePhase::Removing(0), FileWorkView::Remove(self.file_at(0))),
        }
    }

    /// The file of this upload that is removed `i`-th.
    fn file_to_remove(&self, i: u8) -> (path: String)
        ensures
            path@ == self.file_at(i as int),
    {
        if i == 0 {
            self.doc_path.clone()
        } else if i == 1 {
            self.photo_path.clone()
        } else if i == 2 {
            self.jpeg_path.clone()
        } else {
            self.thumb_path.clone()
        }
    }

    /// Takes the next step of removing the upload's files (see `delete_next`).
    pub fn delete_all(&self, phase: DeletePhase, event: FileEvent) -> (next: (DeletePhase, FileWork))
        requires
            Self::delete_accepts(phase, event),
        ensures
            next.0 == self.delete_next(phase, event).0,
            next.1@ == self.delete_next(phase, event).1,
    {
        match (phase, event) {
            (DeletePhase::Removing(i), FileEvent::Removed(removed)) => {
                if !removed {
                    (DeletePhase::Done, FileWork::Deleted(false))
                } else if i < 3 {
                    (DeletePhase::Removing(i + 1), FileWork::Remove { path: self.file_to_remove(i + 1) })
                } else {
                    (DeletePhase::Done, FileWork::Deleted(true))
                }
            },
            _ => (DeletePhase::Removing(0), FileWork::Remove { path: self.file_to_remove(0) }),
        }
    }

    /// The lines describing the document's EXIF data, given what reading it
    /// gave (`None` where it could not be read).
    pub fn get_exif_info(&self, exif: Option<ExifInfo>) -> (messages: Vec<String>)
        ensures
            messages.deep_view() == match exif {
                Some(e) => exif_lines(text_of(e.maker_model), text_of(e.photo_info)),
                None => Seq::<Seq<char>>::empty(),
            },
    {
        let mut messages: Vec<String> = Vec::new();
        match exif {
            Some(info) => {
                let ghost m = text_of(info.maker_model);
                let ghost p = text_of(info.photo_info);
                match info.maker_model {
                    Some(maker_model) => {
                        let mut line = String::from_str("📸 Снято на: ");
                        line.append(maker_model.as_str());
                        messages.push(line);
                    },
                    None => {},
                }
                match info.photo_info {
                    Some(photo_info) => {
                        let mut line = String::from_str("ℹ️ ");
                        line.append(photo_info.as_str());
                        messages.push(line);
                    },
                    None => {},
                }
                if messages.len() > 0 {
                    messages.push(String::new());
                }
                assert(messages.deep_view() =~= exif_lines(m, p));
            },
            None => {
                assert(messages.deep_view() =~= Seq::<Seq<char>>::empty());
            },
        }
        messages
    }

    /// The photo to publish. It is read after the size checks of `check`.
    pub fn photo(&self) -> (path: &str)
        ensures
            path@ == self.photo_file(),
    {
        self.photo_path.as_str()
    }

    /// The JPEG copy of the photo.
    pub fn converted(&self) -> (path: &str)
        ensures
            path@ == self.jpeg_file(),
    {
        self.jpeg_path.as_str()
    }

    /// The document as received.
    pub fn document_path(&self) -> (path: &str)
        ensures
            path@ == self.doc_file(),
    {
        self.doc_path.as_str()
    }

    /// The thumbnail, which is made from the photo at `THUMBNAIL_WIDTH`.
    pub fn thumbnail(&self) -> (path: &str)
        ensures
            path@ == self.thumb_file(),
    {
        self.thumb_path.as_str()
    }
}

/// The photo that is published is never kept as HEIC.
pub proof fn published_photo_is_never_heic(kind: FileType)
    ensures
        photo_kind(kind) != FileType::Heic,
        photo_kind(kind).extension() != FileType::Heic.extension(),
{
    assert(FileType::Png.extension() != FileType::Heic.extension()) by {
        assert(FileType::Png.extension().len() != FileType::Heic.extension().len());
    }
    assert(FileType::Jpeg.extension()[0] != FileType::Heic.extension()[0]);
}

/// How many more steps converting can take from a phase.
pub open spec fn convert_rank(phase: ConvertPhase) -> nat {
    match phase {
        ConvertPhase::Start => 4,
        ConvertPhase::CheckingDocument => 3,
        ConvertPhase::Converting => 2,
        ConvertPhase::CopyingPhoto => 2,
        ConvertPhase::CopyingConverted => 1,
        ConvertPhase::CopyingJpeg => 1,
        ConvertPhase::Done => 0,
    }
}

/// How many more steps checking can take from a phase.
pub open spec fn check_rank(phase: CheckPhase) -> nat {
    match phase {
        CheckPhase::Start => 5,
        CheckPhase::ReadingSize => 4,
        CheckPhase::ShrinkingFile => 3,
        CheckPhase::ReadingDimensions => 2,
        CheckPhase::FittingDimensions => 1,
        CheckPhase::Done => 0,
    }
}

/// How many more steps removing the files can take from a phase.
pub open spec fn delete_rank(phase: DeletePhase) -> nat {
    match phase {
        DeletePhase::Start => 5,
        DeletePhase::Removing(i) => if i < 4 {
            (4 - i) as nat
        } else {
            0
        },
        DeletePhase::Done => 0,
    }
}

/// Converting, checking and removing the files each end: every step that
/// does not finish brings them closer to the end, and a step that finishes
/// reports the outcome.
pub proof fn photo_preparation_ends(photo: PhotoToUpload, event: FileEvent)
    ensures
        forall|phase: ConvertPhase|
            PhotoToUpload::convert_accepts(phase, event) ==> (#[trigger] photo.convert_next(
                phase,
                event,
            ).0 == ConvertPhase::Done && photo.convert_next(phase, event).1 is Finished)
                || convert_rank(photo.convert_next(phase, event).0) < convert_rank(phase),
        forall|phase: CheckPhase|
            PhotoToUpload::check_accepts(phase, event) ==> (#[trigger] photo.check_next(phase, event).0
                == CheckPhase::Done && photo.check_next(phase, event).1 is Finished) || check_rank(
                photo.check_next(phase, event).0,
            ) < check_rank(phase),
        forall|phase: DeletePhase|
            PhotoToUpload::delete_accepts(phase, event) ==> (#[trigger] photo.delete_next(
                phase,
                event,
            ).0 == DeletePhase::Done && photo.delete_next(phase, event).1 is Deleted) || delete_rank(
                photo.delete_next(phase, event).0,
            ) < delete_rank(phase),
{
}

/// A document that is not HEIC is never handed to `heif-convert`; a HEIC
/// document that exists is always handed to it, from the document to the photo.
pub proof fn only_heic_documents_are_converted(photo: PhotoToUpload, phase: ConvertPhase, event: FileEvent)
    requires
        PhotoToUpload::convert_accepts(phase, event),
    ensures
        photo.kind() != FileType::Heic ==> !(photo.convert_next(phase, event).1 is ConvertHeif),
        photo.kind() == FileType::Heic && phase == ConvertPhase::CheckingDocument && event
            == FileEvent::Exists(true) ==> photo.convert_next(phase, event).1
            == FileWorkView::ConvertHeif(photo.doc_file(), photo.photo_file()),
{
}

/// The actions that removing the files takes from `phase` on, event by
/// event, while each event is one it accepts.
pub open spec fn delete_run(photo: PhotoToUpload, phase: DeletePhase, events: Seq<FileEvent>) -> Seq<
    FileWorkView,
>
    decreases events.len(),
{
    if events.len() == 0 || !PhotoToUpload::delete_accepts(phase, events[0]) {
        Seq::empty()
    } else {
        let (after, work) = photo.delete_next(phase, events[0]);
        seq![work] + delete_run(photo, after, events.drop_first())
    }
}

/// The events of removing the files: the start, then the outcome of each removal.
pub open spec fn removal_events(removed: Seq<bool>) -> Seq<FileEvent> {
    seq![FileEvent::Begin] + removed.map_values(|r: bool| FileEvent::Removed(r))
}

/// Removing the files reports success exactly when all four removals
/// succeed: the files are removed in order, the first failure ends it with
/// `false`, and success of the fourth ends it with `true`.
pub proof fn deleting_reports_every_removal(photo: PhotoToUpload, removed: Seq<bool>)
    requires
        removed.len() == 4,
    ensures
        delete_run(photo, DeletePhase::Start, removal_events(removed)).last() == FileWorkView::Deleted(
            removed[0] && removed[1] && removed[2] && removed[3],
        ),
        delete_run(photo, DeletePhase::Start, removal_events(removed))[0] == FileWorkView::Remove(
            photo.doc_file(),
        ),
{
    let e = removal_events(removed);
    let e1 = e.drop_first();
    let e2 = e1.drop_first();
    let e3 = e2.drop_first();
    let e4 = e3.drop_first();
    let e5 = e4.drop_first();
    assert(e1 =~= removed.map_values(|r: bool| FileEvent::Removed(r)));
    assert(e5.len() == 0);
    assert(delete_run(photo, DeletePhase::Done, e2) =~= Seq::<FileWorkView>::empty());
    assert(delete_run(photo, DeletePhase::Done, e3) =~= Seq::<FileWorkView>::empty());
    assert(delete_run(photo, DeletePhase::Done, e4) =~= Seq::<FileWorkView>::empty());
    assert(delete_run(photo, DeletePhase::Done, e5) =~= Seq::<FileWorkView>::empty());
    assert(delete_run(photo, DeletePhase::Removing(4), e5) =~= Seq::<FileWorkView>::empty());
    let r4 = delete_run(photo, DeletePhase::Removing(3), e4);
    let r3 = delete_run(photo, DeletePhase::Removing(2), e3);
    let r2 = delete_run(photo, DeletePhase::Removing(1), e2);
    let r1 = delete_run(photo, DeletePhase::Removing(0), e1);
    assert(r4.last() == FileWorkView::Deleted(removed[3]));
    assert(r3.last() == FileWorkView::Deleted(removed[2] && removed[3]));
    assert(r2.last() == FileWorkView::Deleted(removed[1] && removed[2] && removed[3]));
    assert(r1.last() == FileWorkView::Deleted(removed[0] && removed[1] && removed[2] && removed[3]));
}

/// A photo of at most `MAX_PHOTO_BYTES` and at most `MAX_PHOTO_SIDE` pixels
/// each way is left as it is: its size and its dimensions are read, and the
/// check ends well without rescaling.
pub proof fn small_photos_are_left_alone(photo: PhotoToUpload, len: u64, width: u32, height: u32)
    requires
        len <= MAX_PHOTO_BYTES,
        width <= MAX_PHOTO_SIDE,
        height <= MAX_PHOTO_SIDE,
    ensures
        photo.check_next(CheckPhase::Start, FileEvent::Begin) == (
            CheckPhase::ReadingSize,
            FileWorkView::ReadSize(photo.photo_file()),
        ),
        photo.check_next(CheckPhase::ReadingSize, FileEvent::Size(Ok(len))) == (
            CheckPhase::ReadingDimensions,
            FileWorkView::ReadDimensions,
        ),
        photo.check_next(CheckPhase::ReadingDimensions, FileEvent::Dimensions(width, height)) == (
            CheckPhase::Done,
            FileWorkView::Finished(Ok(())),
        ),
{
}

/// A file over `MAX_PHOTO_BYTES` is shrunk to half its width and height and
/// saved over the photo, and the check then goes on to the dimensions,
/// whether or not the save succeeded; a file size that cannot be read fails
/// the check with the reader's error.
pub proof fn large_files_are_halved(photo: PhotoToUpload, len: u64, saved: bool, error: String)
    requires
        len > MAX_PHOTO_BYTES,
    ensures
        photo.check_next(CheckPhase::ReadingSize, FileEvent::Size(Ok(len))) == (
            CheckPhase::ShrinkingFile,
            FileWorkView::Rescale(Rescale::Half, photo.photo_file()),
        ),
        photo.check_next(CheckPhase::ShrinkingFile, FileEvent::Rescaled(saved)) == (
            CheckPhase::ReadingDimensions,
            FileWorkView::ReadDimensions,
        ),
        photo.check_next(CheckPhase::ReadingSize, FileEvent::Size(Err(error))) == (
            CheckPhase::Done,
            FileWorkView::Finished(
                Err(BotErrorView::GetMetadataFailed("Get metadata failed: "@ + error@)),
            ),
        ),
{
}

/// A photo wider or higher than `MAX_PHOTO_SIDE` pixels is always scaled to
/// fit within `MAX_PHOTO_SIDE` and saved over the photo, after which the
/// check ends well; the width counts as much as the height.
pub proof fn oversized_photos_are_fitted(photo: PhotoToUpload, width: u32, height: u32, saved: bool)
    requires
        width > MAX_PHOTO_SIDE || height > MAX_PHOTO_SIDE,
    ensures
        photo.check_next(CheckPhase::ReadingDimensions, FileEvent::Dimensions(width, height)) == (
            CheckPhase::FittingDimensions,
            FileWorkView::Rescale(Rescale::FitWithin(4000), photo.photo_file()),
        ),
        photo.check_next(CheckPhase::FittingDimensions, FileEvent::Rescaled(saved)) == (
            CheckPhase::Done,
            FileWorkView::Finished(Ok(())),
        ),
{
}

/// An existing document that is not HEIC is copied to the photo and then to
/// the JPEG copy, and converting ends well; a missing document fails with
/// `File <path> not exists!` and nothing is written.
pub proof fn copied_documents_fill_photo_and_copy(photo: PhotoToUpload)
    requires
        photo.kind() != FileType::Heic,
    ensures
        photo.convert_next(ConvertPhase::Start, FileEvent::Begin) == (
            ConvertPhase::CheckingDocument,
            FileWorkView::CheckExists(photo.doc_file()),
        ),
        photo.convert_next(ConvertPhase::CheckingDocument, FileEvent::Exists(true)) == (
            ConvertPhase::CopyingPhoto,
            FileWorkView::Copy(photo.doc_file(), photo.photo_file()),
        ),
        photo.convert_next(ConvertPhase::CopyingPhoto, FileEvent::Copied) == (
            ConvertPhase::CopyingJpeg,
            FileWorkView::Copy(photo.doc_file(), photo.jpeg_file()),
        ),
        photo.convert_next(ConvertPhase::CopyingJpeg, FileEvent::Copied) == (
            ConvertPhase::Done,
            FileWorkView::Finished(Ok(())),
        ),
        photo.convert_next(ConvertPhase::CheckingDocument, FileEvent::Exists(false)) == (
            ConvertPhase::Done,
            FileWorkView::Finished(
                Err(BotErrorView::FileNotExists("File "@ + photo.doc_file() + " not exists!"@)),
            ),
        ),
{
}

/// An existing HEIC document is converted into the photo; where the tool
/// reports success the photo is copied to the JPEG copy and converting ends
/// well, where it reports failure converting fails with
/// `Converting failed: <status>`, and where it could not be run converting
/// ends with nothing more done.
pub proof fn heic_documents_are_converted_into_the_photo(photo: PhotoToUpload, status: String)
    requires
        photo.kind() == FileType::Heic,
    ensures
        photo.convert_next(ConvertPhase::CheckingDocument, FileEvent::Exists(true)) == (
            ConvertPhase::Converting,
            FileWorkView::ConvertHeif(photo.doc_file(), photo.photo_file()),
        ),
        photo.convert_next(
            ConvertPhase::Converting,
            FileEvent::Converted(Some(ConverterExit { success: true, status })),
        ) == (ConvertPhase::CopyingConverted, FileWorkView::Copy(photo.photo_file(), photo.jpeg_file())),
        photo.convert_next(ConvertPhase::CopyingConverted, FileEvent::Copied) == (
            ConvertPhase::Done,
            FileWorkView::Finished(Ok(())),
        ),
        photo.convert_next(
            ConvertPhase::Converting,
            FileEvent::Converted(Some(ConverterExit { success: false, status })),
        ) == (
            ConvertPhase::Done,
            FileWorkView::Finished(
                Err(BotErrorView::ConvertingFailed("Converting failed: "@ + status@)),
            ),
        ),
        photo.convert_next(ConvertPhase::Converting, FileEvent::Converted(None)) == (
            ConvertPhase::Done,
            FileWorkView::Finished(Ok(())),
        ),
{
}

/// The EXIF lines: the camera line `📸 Снято на: <maker and model>` exactly
/// where the maker and model are known, whatever the shot summary is, then
/// the line `ℹ️ <summary>` exactly where the summary is known, then an empty
/// line where there was any line at all.
pub proof fn exif_lines_describe_what_is_known(maker_model: Option<Seq<char>>, photo_info: Option<Seq<char>>)
    ensures
        exif_lines(None, None) == Seq::<Seq<char>>::empty(),
        maker_model matches Some(m) ==> exif_lines(maker_model, None) == seq![
            "📸 Снято на: "@ + m,
            Seq::<char>::empty(),
        ],
        photo_info matches Some(i) ==> exif_lines(None, photo_info) == seq![
            "ℹ️ "@ + i,
            Seq::<char>::empty(),
        ],
        maker_model matches Some(m) ==> (photo_info matches Some(i) ==> exif_lines(maker_model, photo_info)
            == seq!["📸 Снято на: "@ + m, "ℹ️ "@ + i, Seq::<char>::empty()]),
{
    if let Some(m) = maker_model {
        assert(exif_lines(maker_model, None) =~= seq!["📸 Снято на: "@ + m, Seq::<char>::empty()]);
        if let Some(i) = photo_info {
            assert(exif_lines(maker_model, photo_info) =~= seq![
                "📸 Снято на: "@ + m,
                "ℹ️ "@ + i,
                Seq::<char>::empty(),
            ]);
        }
    }
    if let Some(i) = photo_info {
        assert(exif_lines(None, photo_info) =~= seq!["ℹ️ "@ + i, Seq::<char>::empty()]);
    }
}

/// The width thumbnails are resized to.
pub const THUMBNAIL_WIDTH: u32 = 320;

} // verus!
