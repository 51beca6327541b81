//! Output formats, extension normalisation and the choices offered for an input.

use crate::text::str_eq;
use vstd::prelude::*;

verus! {

/// Coarse classification of a file by its normalised extension.
#[derive(Clone, Copy, Debug, PartialEq, Eq, Structural)]
pub enum MediaKind {
    Image,
    Video,
    Unknown,
}

/// The formats the converter can write.
#[derive(Clone, Copy, Debug, PartialEq, Eq, Structural)]
pub enum OutputFormat {
    Png,
    Jpg,
    Webp,
    Avif,
    Mp4,
}

/// An output choice as shown to the user: the extension and its label.
#[derive(Clone, Copy, Debug, PartialEq, Eq)]
pub struct ExtensionEntry {
    pub extension: &'static str,
    pub label: &'static str,
}

impl View for ExtensionEntry {
    type V = (Seq<char>, Seq<char>);

    open spec fn view(&self) -> (Seq<char>, Seq<char>) {
        (self.extension@, self.label@)
    }
}

impl OutputFormat {
    /// The file extension written for this format.
    pub open spec fn spec_extension(self) -> Seq<char> {
        match self {
            OutputFormat::Png => "png"@,
            OutputFormat::Jpg => "jpg"@,
            OutputFormat::Webp => "webp"@,
            OutputFormat::Avif => "avif"@,
            OutputFormat::Mp4 => "mp4"@,
        }
    }

    /// The label under which this format is offered.
    pub open spec fn spec_label(self) -> Seq<char> {
        match self {
            OutputFormat::Png => "PNG (lossless)"@,
            OutputFormat::Jpg => "JPG (compressed)"@,
            OutputFormat::Webp => "WEBP (for web)"@,
            OutputFormat::Avif => "AVIF (modern)"@,
            OutputFormat::Mp4 => "MP4 (H.264)"@,
        }
    }

    /// The kind of media this format holds.
    pub open spec fn spec_kind(self) -> MediaKind {
        match self {
            OutputFormat::Mp4 => MediaKind::Video,
            _ => MediaKind::Image,
        }
    }

    /// The position of this format in the pool of its kind.
    pub open spec fn rank(self) -> int {
        match self {
            OutputFormat::Png => 0,
            OutputFormat::Jpg => 1,
            OutputFormat::Webp => 2,
            OutputFormat::Avif => 3,
            OutputFormat::Mp4 => 0,
        }
    }

    /// The arguments that select this format's encoder; none where the
    /// transcoder's default for the extension is used.
    pub open spec fn spec_codec_args(self) -> Seq<Seq<char>> {
        match self {
            OutputFormat::Mp4 => seq!["-c:v"@, "libx264"@],
            OutputFormat::Avif => seq!["-c:v"@, "libaom-av1"@],
            _ => Seq::empty(),
        }
    }

    /// The entry shown for this format.
    pub open spec fn spec_entry(self) -> (Seq<char>, Seq<char>) {
        (self.spec_extension(), self.spec_label())
    }

    /// The format written under `ext`, if there is one.
    pub open spec fn spec_from_extension(ext: Seq<char>) -> Option<OutputFormat> {
        if ext == "png"@ {
            Some(OutputFormat::Png)
        } else if ext == "jpg"@ {
            Some(OutputFormat::Jpg)
        } else if ext == "webp"@ {
            Some(OutputFormat::Webp)
        } else if ext == "avif"@ {
            Some(OutputFormat::Avif)
        } else if ext == "mp4"@ {
            Some(OutputFormat::Mp4)
        } else {
            None
        }
    }

    /// The format offered under `label`, if there is one.
    pub open spec fn spec_from_label(label: Seq<char>) -> Option<OutputFormat> {
        if label == "PNG (lossless)"@ {
            Some(OutputFormat::Png)
        } else if label == "JPG (compressed)"@ {
            Some(OutputFormat::Jpg)
        } else if label == "WEBP (for web)"@ {
            Some(OutputFormat::Webp)
        } else if label == "AVIF (modern)"@ {
            Some(OutputFormat::Avif)
        } else if label == "MP4 (H.264)"@ {
            Some(OutputFormat::Mp4)
        } else {
            None
        }
    }

    /// The file extension written for this format.
    pub fn extension(self) -> (ext: &'static str)
        ensures
            ext@ == self.spec_extension(),
    {
        match self {
            OutputFormat::Png => "png",
            OutputFormat::Jpg => "jpg",
            OutputFormat::Webp => "webp",
            OutputFormat::Avif => "avif",
            OutputFormat::Mp4 => "mp4",
        }
    }

    /// The label under which this format is offered.
    pub fn label(self) -> (label: &'static str)
        ensures
            label@ == self.spec_label(),
    {
        match self {
            OutputFormat::Png => "PNG (lossless)",
            OutputFormat::Jpg => "JPG (compressed)",
            OutputFormat::Webp => "WEBP (for web)",
            OutputFormat::Avif => "AVIF (modern)",
            OutputFormat::Mp4 => "MP4 (H.264)",
        }
    }

    /// The kind of media this format holds.
    pub fn kind(self) -> (kind: MediaKind)
        ensures
            kind == self.spec_kind(),
    {
        match self {
            OutputFormat::Mp4 => MediaKind::Video,
            _ => MediaKind::Image,
        }
    }

    /// The arguments that select this format's encoder; none where the
    /// transcoder's default for the extension is used.
    pub fn codec_args(self) -> (args: Vec<&'static str>)
        ensures
            args@.len() == self.spec_codec_args().len(),
            forall|i: int| 0 <= i < args@.len() ==> args@[i]@ == self.spec_codec_args()[i],
    {
        let mut args: Vec<&'static str> = Vec::new();
        match self {
            OutputFormat::Mp4 => {
                args.push("-c:v");
                args.push("libx264");
            },
            OutputFormat::Avif => {
                args.push("-c:v");
                args.push("libaom-av1");
            },
            _ => {},
        }
        args
    }

    /// The entry shown for this format.
    pub fn entry(self) -> (entry: ExtensionEntry)
        ensures
            entry@ == self.spec_entry(),
    {
        ExtensionEntry { extension: self.extension(), label: self.label() }
    }

    /// The format written under `ext`, if there is one. Synonyms and other
    /// spellings are not taken.
    pub fn from_extension(ext: &str) -> (format: Option<OutputFormat>)
        ensures
            format == Self::spec_from_extension(ext@),
    {
        if str_eq(ext, "png") {
            Some(OutputFormat::Png)
        } else if str_eq(ext, "jpg") {
            Some(OutputFormat::Jpg)
        } else if str_eq(ext, "webp") {
            Some(OutputFormat::Webp)
        } else if str_eq(ext, "avif") {
            Some(OutputFormat::Avif)
        } else if str_eq(ext, "mp4") {
            Some(OutputFormat::Mp4)
        } else {
            None
        }
    }

    /// The format offered under `label`, if there is one.
    pub fn from_label(label: &str) -> (format: Option<OutputFormat>)
        ensures
            format == Self::spec_from_label(label@),
    {
        if str_eq(label, "PNG (lossless)") {
            Some(OutputFormat::Png)
        } else if str_eq(label, "JPG (compressed)") {
            Some(OutputFormat::Jpg)
        } else if str_eq(label, "WEBP (for web)") {
            Some(OutputFormat::Webp)
        } else if str_eq(label, "AVIF (modern)") {
            Some(OutputFormat::Avif)
        } else if str_eq(label, "MP4 (H.264)") {
            Some(OutputFormat::Mp4)
        } else {
            None
        }
    }
}

/// The format that an input with extension `ext` is taken to hold: synonyms
/// collapse, and an unrecognised extension has none.
pub open spec fn spec_source_format(ext: Seq<char>) -> Option<OutputFormat> {
    if ext == "jpg"@ || ext == "jpeg"@ || ext == "heic"@ {
        Some(OutputFormat::Jpg)
    } else if ext == "png"@ {
        Some(OutputFormat::Png)
    } else if ext == "webp"@ {
        Some(OutputFormat::Webp)
    } else if ext == "avif"@ {
        Some(OutputFormat::Avif)
    } else if ext == "mp4"@ || ext == "mov"@ || ext == "avi"@ || ext == "webm"@ {
        Some(OutputFormat::Mp4)
    } else {
        None
    }
}

/// The normalised extension of `ext`; empty where `ext` is not recognised.
pub open spec fn spec_normalize(ext: Seq<char>) -> Seq<char> {
    match spec_source_format(ext) {
        Some(format) => format.spec_extension(),
        None => Seq::empty(),
    }
}

/// The kind of media an input with extension `ext` holds.
pub open spec fn spec_media_kind(ext: Seq<char>) -> MediaKind {
    match spec_source_format(ext) {
        Some(format) => format.spec_kind(),
        None => MediaKind::Unknown,
    }
}

/// The formats offered for a kind of media, in the order they are offered.
pub open spec fn spec_pool(kind: MediaKind) -> Seq<OutputFormat> {
    match kind {
        MediaKind::Image => seq![
            OutputFormat::Png,
            OutputFormat::Jpg,
            OutputFormat::Webp,
            OutputFormat::Avif,
        ],
        MediaKind::Video => seq![OutputFormat::Mp4],
        MediaKind::Unknown => Seq::empty(),
    }
}

/// Holds of the formats written under another extension than `normalized`.
pub open spec fn written_otherwise(normalized: Seq<char>) -> spec_fn(OutputFormat) -> bool {
    |format: OutputFormat| format.spec_extension() != normalized
}

/// The formats offered for an input with extension `ext`: the pool of its
/// kind, in order, without the format the input already has.
pub open spec fn spec_resolve(ext: Seq<char>) -> Seq<OutputFormat> {
    spec_pool(spec_media_kind(ext)).filter(written_otherwise(spec_normalize(ext)))
}

/// The format that an input with extension `ext` is taken to hold. The
/// extension is expected in lower case.
pub fn source_format(ext: &str) -> (format: Option<OutputFormat>)
    ensures
        format == spec_source_format(ext@),
{
    if str_eq(ext, "jpg") || str_eq(ext, "jpeg") || str_eq(ext, "heic") {
        Some(OutputFormat::Jpg)
    } else if str_eq(ext, "png") {
        Some(OutputFormat::Png)
    } else if str_eq(ext, "webp") {
        Some(OutputFormat::Webp)
    } else if str_eq(ext, "avif") {
        Some(OutputFormat::Avif)
    } else if str_eq(ext, "mp4") || str_eq(ext, "mov") || str_eq(ext, "avi") || str_eq(
        ext,
        "webm",
    ) {
        Some(OutputFormat::Mp4)
    } else {
        None
    }
}

/// The normalised extension of `ext`; empty where `ext` is not recognised.
pub fn normalize_extension(ext: &str) -> (normalized: &'static str)
    ensures
        normalized@ == spec_normalize(ext@),
{
    match source_format(ext) {
        Some(format) => format.extension(),
        None => {
            proof {
                reveal_strlit("");
            }
            ""
        },
    }
}

/// The kind of media an input with extension `ext` holds.
pub fn media_kind(ext: &str) -> (kind: MediaKind)
    ensures
        kind == spec_media_kind(ext@),
{
    match source_format(ext) {
        Some(format) => format.kind(),
        None => MediaKind::Unknown,
    }
}

/// The formats offered for a kind of media, in the order they are offered.
pub fn pool(kind: MediaKind) -> (formats: Vec<OutputFormat>)
    ensures
        formats@ == spec_pool(kind),
{
    let mut formats: Vec<OutputFormat> = Vec::new();
    match kind {
        MediaKind::Image => {
            formats.push(OutputFormat::Png);
            formats.push(OutputFormat::Jpg);
            formats.push(OutputFormat::Webp);
            formats.push(OutputFormat::Avif);
        },
        MediaKind::Video => {
            formats.push(OutputFormat::Mp4);
        },
        MediaKind::Unknown => {},
    }
    assert(formats@ =~= spec_pool(kind));
    formats
}

/// The output choices for an input with extension `ext`, the default first.
pub fn resolve(ext: &str) -> (choices: Vec<ExtensionEntry>)
    ensures
        choices@.len() == spec_resolve(ext@).len(),
        forall|i: int|
            0 <= i < choices@.len() ==> (#[trigger] choices@[i])@ == spec_resolve(
                ext@,
            )[i].spec_entry(),
{
    let normalized = normalize_extension(ext);
    let offered = pool(media_kind(ext));
    let ghost keep = written_otherwise(spec_normalize(ext@));
    let mut choices: Vec<ExtensionEntry> = Vec::new();
    let mut i: usize = 0;
    while i < offered.len()
        invariant
            i <= offered@.len(),
            normalized@ == spec_normalize(ext@),
            keep == written_otherwise(spec_normalize(ext@)),
            choices@.len() == offered@.take(i as int).filter(keep).len(),
            forall|k: int|
                0 <= k < choices@.len() ==> (#[trigger] choices@[k])@ == offered@.take(
                    i as int,
                ).filter(keep)[k].spec_entry(),
        decreases offered@.len() - i,
    {
        let format = offered[i];
        proof {
            reveal(Seq::filter);
            assert(offered@.take(i + 1).drop_last() =~= offered@.take(i as int));
        }
        if !str_eq(format.extension(), normalized) {
            choices.push(format.entry());
        }
        i += 1;
    }
    assert(offered@.take(i as int) =~= offered@);
    choices
}

/// The extensions of the inputs the converter takes, in the order in which a
/// file picker lists them.
pub open spec fn spec_recognized_extensions() -> Seq<Seq<char>> {
    seq![
        "mp4"@,
        "mov"@,
        "avi"@,
        "webm"@,
        "png"@,
        "jpg"@,
        "jpeg"@,
        "webp"@,
        "heic"@,
        "avif"@,
    ]
}

/// The extensions of the inputs the converter takes.
pub fn recognized_extensions() -> (extensions: Vec<&'static str>)
    ensures
        extensions@.len() == spec_recognized_extensions().len(),
        forall|i: int|
            0 <= i < extensions@.len() ==> (#[trigger] extensions@[i])@
                == spec_recognized_extensions()[i],
{
    let mut extensions: Vec<&'static str> = Vec::new();
    extensions.push("mp4");
    extensions.push("mov");
    extensions.push("avi");
    extensions.push("webm");
    extensions.push("png");
    extensions.push("jpg");
    extensions.push("jpeg");
    extensions.push("webp");
    extensions.push("heic");
    extensions.push("avif");
    extensions
}

/// The extensions taken to hold an image.
pub open spec fn is_image_extension(ext: Seq<char>) -> bool {
    ||| ext == "jpg"@
    ||| ext == "jpeg"@
    ||| ext == "heic"@
    ||| ext == "png"@
    ||| ext == "webp"@
    ||| ext == "avif"@
}

/// The extensions taken to hold a video.
pub open spec fn is_video_extension(ext: Seq<char>) -> bool {
    ||| ext == "mp4"@
    ||| ext == "mov"@
    ||| ext == "avi"@
    ||| ext == "webm"@
}

/// What the extension literals hold, character by character.
pub proof fn lemma_extension_texts()
    ensures
        ""@.len() == 0,
        "png"@.len() == 3 && "png"@[0] == 'p' && "png"@[1] == 'n' && "png"@[2] == 'g',
        "jpg"@.len() == 3 && "jpg"@[0] == 'j' && "jpg"@[1] == 'p' && "jpg"@[2] == 'g',
        "jpeg"@.len() == 4 && "jpeg"@[0] == 'j' && "jpeg"@[1] == 'p' && "jpeg"@[2] == 'e' && "jpeg"@[3] == 'g',
        "heic"@.len() == 4 && "heic"@[0] == 'h' && "heic"@[1] == 'e' && "heic"@[2] == 'i' && "heic"@[3] == 'c',
        "webp"@.len() == 4 && "webp"@[0] == 'w' && "webp"@[1] == 'e' && "webp"@[2] == 'b' && "webp"@[3] == 'p',
        "avif"@.len() == 4 && "avif"@[0] == 'a' && "avif"@[1] == 'v' && "avif"@[2] == 'i' && "avif"@[3] == 'f',
        "mp4"@.len() == 3 && "mp4"@[0] == 'm' && "mp4"@[1] == 'p' && "mp4"@[2] == '4',
        "mov"@.len() == 3 && "mov"@[0] == 'm' && "mov"@[1] == 'o' && "mov"@[2] == 'v',
        "avi"@.len() == 3 && "avi"@[0] == 'a' && "avi"@[1] == 'v' && "avi"@[2] == 'i',
        "webm"@.len() == 4 && "webm"@[0] == 'w' && "webm"@[1] == 'e' && "webm"@[2] == 'b' && "webm"@[3] == 'm',
{
    reveal_strlit("");
    reveal_strlit("png");
    reveal_strlit("jpg");
    reveal_strlit("jpeg");
    reveal_strlit("heic");
    reveal_strlit("webp");
    reveal_strlit("avif");
    reveal_strlit("mp4");
    reveal_strlit("mov");
    reveal_strlit("avi");
    reveal_strlit("webm");
}

/// No two formats share an extension, and each format is found again under
/// its own: a format is written under `ext` exactly if `ext` is its extension.
pub proof fn lemma_from_extension_inverts(ext: Seq<char>, format: OutputFormat)
    ensures
        OutputFormat::spec_from_extension(ext) == Some(format) <==> format.spec_extension() == ext,
{
    lemma_extension_texts();
}

/// Each format is found again under its own label, and under no other.
pub proof fn lemma_from_label_inverts(label: Seq<char>, format: OutputFormat)
    ensures
        OutputFormat::spec_from_label(label) == Some(format) <==> format.spec_label() == label,
{
    reveal_strlit("PNG (lossless)");
    reveal_strlit("JPG (compressed)");
    reveal_strlit("WEBP (for web)");
    reveal_strlit("AVIF (modern)");
    reveal_strlit("MP4 (H.264)");
    assert("PNG (lossless)"@.len() == 14 && "PNG (lossless)"@[0] == 'P');
    assert("JPG (compressed)"@.len() == 16);
    assert("WEBP (for web)"@.len() == 14 && "WEBP (for web)"@[0] == 'W');
    assert("AVIF (modern)"@.len() == 13);
    assert("MP4 (H.264)"@.len() == 11);
}

/// An extension is an image extension exactly if its kind is `Image`, a
/// video extension exactly if its kind is `Video`; every other is `Unknown`.
pub proof fn lemma_kind_of_extension(ext: Seq<char>)
    ensures
        is_image_extension(ext) <==> spec_media_kind(ext) == MediaKind::Image,
        is_video_extension(ext) <==> spec_media_kind(ext) == MediaKind::Video,
        !is_image_extension(ext) && !is_video_extension(ext) <==> spec_media_kind(ext)
            == MediaKind::Unknown,
{
    lemma_extension_texts();
}

/// The recognised extensions are the image and the video extensions, and they
/// are the ones for which an input's format is known.
pub proof fn lemma_recognized_extensions(ext: Seq<char>)
    ensures
        spec_recognized_extensions().contains(ext) <==> is_image_extension(ext)
            || is_video_extension(ext),
        spec_recognized_extensions().contains(ext) <==> spec_source_format(ext) is Some,
{
    lemma_extension_texts();
    let listed = spec_recognized_extensions();
    assert(listed[0] == "mp4"@ && listed[1] == "mov"@ && listed[2] == "avi"@);
    assert(listed[3] == "webm"@ && listed[4] == "png"@ && listed[5] == "jpg"@);
    assert(listed[6] == "jpeg"@ && listed[7] == "webp"@ && listed[8] == "heic"@);
    assert(listed[9] == "avif"@);
}

/// A normalised extension normalises to itself.
pub proof fn lemma_normalize_is_idempotent(ext: Seq<char>)
    ensures
        spec_normalize(spec_normalize(ext)) == spec_normalize(ext),
{
    lemma_extension_texts();
}

proof fn lemma_filter_push(formats: Seq<OutputFormat>, last: OutputFormat, keep: spec_fn(OutputFormat) -> bool)
    ensures
        formats.push(last).filter(keep) == if keep(last) {
            formats.filter(keep).push(last)
        } else {
            formats.filter(keep)
        },
{
    reveal(Seq::filter);
    assert(formats.push(last).drop_last() =~= formats);
}

/// The choices for an extension whose input holds `source`: the pool of
/// `source`'s kind with `source` taken out at its place.
proof fn lemma_resolve_removes_source(ext: Seq<char>, source: OutputFormat)
    requires
        spec_source_format(ext) == Some(source),
    ensures
        spec_resolve(ext) == spec_pool(source.spec_kind()).remove(source.rank()),
{
    lemma_extension_texts();
    let keep = written_otherwise(spec_normalize(ext));
    let none = Seq::<OutputFormat>::empty();
    assert(none.filter(keep) =~= none) by {
        reveal(Seq::filter);
    }
    match source.spec_kind() {
        MediaKind::Image => {
            let a = none.push(OutputFormat::Png);
            let b = a.push(OutputFormat::Jpg);
            let c = b.push(OutputFormat::Webp);
            let d = c.push(OutputFormat::Avif);
            lemma_filter_push(none, OutputFormat::Png, keep);
            lemma_filter_push(a, OutputFormat::Jpg, keep);
            lemma_filter_push(b, OutputFormat::Webp, keep);
            lemma_filter_push(c, OutputFormat::Avif, keep);
            assert(spec_pool(MediaKind::Image) =~= d);
            assert(d.filter(keep) =~= d.remove(source.rank()));
        },
        MediaKind::Video => {
            let a = none.push(OutputFormat::Mp4);
            lemma_filter_push(none, OutputFormat::Mp4, keep);
            assert(spec_pool(MediaKind::Video) =~= a);
            assert(a.filter(keep) =~= a.remove(source.rank()));
        },
        MediaKind::Unknown => {},
    }
}

/// For every image extension the choices are exactly the image pool without
/// the format the input already has, in the pool's order, and none of them is
/// written under the input's own extension.
pub proof fn lemma_image_choices(ext: Seq<char>)
    requires
        is_image_extension(ext),
    ensures
        spec_source_format(ext) is Some,
        spec_resolve(ext) == spec_pool(MediaKind::Image).remove(
            spec_source_format(ext)->0.rank(),
        ),
        forall|i: int|
            0 <= i < spec_resolve(ext).len() ==> (#[trigger] spec_resolve(ext)[i]).spec_extension()
                != ext,
{
    lemma_extension_texts();
    lemma_resolve_removes_source(ext, spec_source_format(ext)->0);
}

/// For every video extension the choices are the video pool without the one
/// format it holds: none is left.
pub proof fn lemma_video_choices(ext: Seq<char>)
    requires
        is_video_extension(ext),
    ensures
        spec_source_format(ext) == Some(OutputFormat::Mp4),
        spec_resolve(ext) == spec_pool(MediaKind::Video).remove(OutputFormat::Mp4.rank()),
        spec_resolve(ext) == Seq::<OutputFormat>::empty(),
{
    lemma_extension_texts();
    lemma_resolve_removes_source(ext, OutputFormat::Mp4);
    assert(spec_pool(MediaKind::Video).remove(0) =~= Seq::<OutputFormat>::empty());
}

/// An input with extension `heic` is offered what one with `jpg` is offered.
pub proof fn lemma_heic_choices_are_jpg_choices()
    ensures
        spec_resolve("heic"@) == spec_resolve("jpg"@),
{
    lemma_extension_texts();
}

/// An extension that is neither an image's nor a video's is offered nothing.
pub proof fn lemma_unknown_has_no_choices(ext: Seq<char>)
    requires
        !is_image_extension(ext),
        !is_video_extension(ext),
    ensures
        spec_resolve(ext) == Seq::<OutputFormat>::empty(),
{
    lemma_extension_texts();
    reveal(Seq::filter);
}

/// A choice is never the format the input already has, and it is of the
/// input's kind.
pub proof fn lemma_choice_differs_from_input(ext: Seq<char>, choice: OutputFormat)
    requires
        spec_resolve(ext).contains(choice),
    ensures
        choice.spec_extension() != ext,
        choice.spec_extension() != spec_normalize(ext),
        choice.spec_kind() == spec_media_kind(ext),
{
    lemma_extension_texts();
    match spec_source_format(ext) {
        Some(source) => {
            lemma_resolve_removes_source(ext, source);
        },
        None => {
            lemma_unknown_has_no_choices(ext);
        },
    }
}

} // verus!
