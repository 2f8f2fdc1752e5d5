//! The lists of files: audio, tracks, notes, pictures, the workspace and its drives.
use vstd::prelude::*;
use crate::json::{
    entries, field, flagged, items_or_none, list_v, num_at, put, text_at, text_or, uint_or,
    Json, JsonV,
};
use crate::numbers::{human_size, size_v};
use crate::reader::{json_flag, json_str, str_v};
use crate::text::{
    after_last, after_last_v, before_last, before_last_v, cat, cat3, copy, dec, dec_u64, given,
    join, joined, same, to_upper, trim, trimmed, upper_case, views,
};

verus! {

broadcast use {
    crate::text::views_push,
    crate::text::views_empty,
    crate::json::entries_empty,
};

// ── Lists ───────────────────────────────────────────────────────────────────

/// A recording.
#[derive(Debug, PartialEq)]
pub struct AudioFileItem {
    pub path: String,
    pub name: String,
    pub size_label: String,
}

/// The model of a [`AudioFileItem`].
pub struct AudioFileItemV {
    pub path: Seq<char>,
    pub name: Seq<char>,
    pub size_label: Seq<char>,
}

impl View for AudioFileItem {
    type V = AudioFileItemV;

    open spec fn view(&self) -> AudioFileItemV {
        AudioFileItemV {
            path: self.path@,
            name: self.name@,
            size_label: self.size_label@,
        }
    }
}

/// A recording, from its entry.
pub open spec fn audio_file_row_v(j: JsonV) -> AudioFileItemV {
    AudioFileItemV {
        path: str_v(j, "path"@),
        name: str_v(j, "name"@),
        size_label: size_v(uint_or(j, "size"@, 0) as nat),
    }
}

fn audio_file_row(j: &Json) -> (r: AudioFileItem)
    ensures
        r@ == audio_file_row_v(j@),
{
    AudioFileItem {
        path: json_str(j, "path"),
        name: json_str(j, "name"),
        size_label: human_size(j.u64_or("size", 0)),
    }
}

/// The rows of the first `n` entries.
pub open spec fn audio_files_v(a: Seq<JsonV>, n: int) -> Seq<AudioFileItemV>
    decreases n,
{
    if n <= 0 {
        Seq::empty()
    } else {
        audio_files_v(a, n - 1).push(audio_file_row_v(a[n - 1]))
    }
}

/// The recordings of a reply.
pub fn audio_files(body: &Json) -> (r: Vec<AudioFileItem>)
    ensures
        views(r@) == audio_files_v(items_or_none(body@, "files"@), items_or_none(body@, "files"@).len() as int),
{
    let arr = body.items_at("files");
    let ghost a = views(arr@);
    let mut out: Vec<AudioFileItem> = Vec::new();
    for i in 0..arr.len()
        invariant
            a == views(arr@),
            views(out@) == audio_files_v(a, i as int),
    {
        assert(a[i as int] == arr@[i as int]@);
        out.push(audio_file_row(&arr[i]));
    }
    assert(a.len() == arr@.len());
    out
}

/// A track.
#[derive(Debug, PartialEq)]
pub struct SonusFileItem {
    pub name: String,
    pub size_label: String,
}

/// The model of a [`SonusFileItem`].
pub struct SonusFileItemV {
    pub name: Seq<char>,
    pub size_label: Seq<char>,
}

impl View for SonusFileItem {
    type V = SonusFileItemV;

    open spec fn view(&self) -> SonusFileItemV {
        SonusFileItemV {
            name: self.name@,
            size_label: self.size_label@,
        }
    }
}

/// A track, from its entry.
pub open spec fn sonus_file_row_v(j: JsonV) -> SonusFileItemV {
    SonusFileItemV {
        name: str_v(j, "name"@),
        size_label: size_v(uint_or(j, "size"@, 0) as nat),
    }
}

fn sonus_file_row(j: &Json) -> (r: SonusFileItem)
    ensures
        r@ == sonus_file_row_v(j@),
{
    SonusFileItem {
        name: json_str(j, "name"),
        size_label: human_size(j.u64_or("size", 0)),
    }
}

/// The rows of the first `n` entries.
pub open spec fn sonus_files_v(a: Seq<JsonV>, n: int) -> Seq<SonusFileItemV>
    decreases n,
{
    if n <= 0 {
        Seq::empty()
    } else {
        sonus_files_v(a, n - 1).push(sonus_file_row_v(a[n - 1]))
    }
}

/// The tracks of a reply, which is a bare list.
pub fn sonus_files(body: &Json) -> (r: Vec<SonusFileItem>)
    ensures
        views(r@) == sonus_files_v(list_v(body@), list_v(body@).len() as int),
{
    let arr = body.items();
    let ghost a = views(arr@);
    let mut out: Vec<SonusFileItem> = Vec::new();
    for i in 0..arr.len()
        invariant
            a == views(arr@),
            views(out@) == sonus_files_v(a, i as int),
    {
        assert(a[i as int] == arr@[i as int]@);
        out.push(sonus_file_row(&arr[i]));
    }
    assert(a.len() == arr@.len());
    out
}

/// A note.
#[derive(Debug, PartialEq)]
pub struct NoteItem {
    pub name: String,
    pub size_label: String,
}

/// The model of a [`NoteItem`].
pub struct NoteItemV {
    pub name: Seq<char>,
    pub size_label: Seq<char>,
}

impl View for NoteItem {
    type V = NoteItemV;

    open spec fn view(&self) -> NoteItemV {
        NoteItemV {
            name: self.name@,
            size_label: self.size_label@,
        }
    }
}

/// A note, from its entry.
pub open spec fn note_row_v(j: JsonV) -> NoteItemV {
    NoteItemV {
        name: str_v(j, "name"@),
        size_label: size_v(uint_or(j, "size"@, 0) as nat),
    }
}

fn note_row(j: &Json) -> (r: NoteItem)
    ensures
        r@ == note_row_v(j@),
{
    NoteItem {
        name: json_str(j, "name"),
        size_label: human_size(j.u64_or("size", 0)),
    }
}

/// The rows of the first `n` entries.
pub open spec fn notes_v(a: Seq<JsonV>, n: int) -> Seq<NoteItemV>
    decreases n,
{
    if n <= 0 {
        Seq::empty()
    } else {
        notes_v(a, n - 1).push(note_row_v(a[n - 1]))
    }
}

/// The notes of a reply.
pub fn notes(body: &Json) -> (r: Vec<NoteItem>)
    ensures
        views(r@) == notes_v(items_or_none(body@, "files"@), items_or_none(body@, "files"@).len() as int),
{
    let arr = body.items_at("files");
    let ghost a = views(arr@);
    let mut out: Vec<NoteItem> = Vec::new();
    for i in 0..arr.len()
        invariant
            a == views(arr@),
            views(out@) == notes_v(a, i as int),
    {
        assert(a[i as int] == arr@[i as int]@);
        out.push(note_row(&arr[i]));
    }
    assert(a.len() == arr@.len());
    out
}

/// A picture.
#[derive(Debug, PartialEq)]
pub struct ImageItem {
    pub path: String,
    pub name: String,
}

/// The model of a [`ImageItem`].
pub struct ImageItemV {
    pub path: Seq<char>,
    pub name: Seq<char>,
}

impl View for ImageItem {
    type V = ImageItemV;

    open spec fn view(&self) -> ImageItemV {
        ImageItemV {
            path: self.path@,
            name: self.name@,
        }
    }
}

/// A picture, from its entry.
pub open spec fn workspace_image_row_v(j: JsonV) -> ImageItemV {
    ImageItemV {
        path: str_v(j, "path"@),
        name: str_v(j, "name"@),
    }
}

fn workspace_image_row(j: &Json) -> (r: ImageItem)
    ensures
        r@ == workspace_image_row_v(j@),
{
    ImageItem {
        path: json_str(j, "path"),
        name: json_str(j, "name"),
    }
}

/// The rows of the first `n` entries.
pub open spec fn workspace_images_v(a: Seq<JsonV>, n: int) -> Seq<ImageItemV>
    decreases n,
{
    if n <= 0 {
        Seq::empty()
    } else {
        workspace_images_v(a, n - 1).push(workspace_image_row_v(a[n - 1]))
    }
}

/// The pictures of a reply.
pub fn workspace_images(body: &Json) -> (r: Vec<ImageItem>)
    ensures
        views(r@) == workspace_images_v(items_or_none(body@, "images"@), items_or_none(body@, "images"@).len() as int),
{
    let arr = body.items_at("images");
    let ghost a = views(arr@);
    let mut out: Vec<ImageItem> = Vec::new();
    for i in 0..arr.len()
        invariant
            a == views(arr@),
            views(out@) == workspace_images_v(a, i as int),
    {
        assert(a[i as int] == arr@[i as int]@);
        out.push(workspace_image_row(&arr[i]));
    }
    assert(a.len() == arr@.len());
    out
}

/// The sign of an entry: that of a folder, or one for the kind of file.
pub open spec fn glyph_v(is_dir: bool, ext: Seq<char>) -> Seq<char> {
    if is_dir {
        "📁"@
    } else if image_ext_v(ext) {
        "🖼"@
    } else if ext == "mp3"@ || ext == "wav"@ || ext == "flac"@ || ext == "ogg"@ || ext == "m4a"@
        || ext == "aac"@ {
        "🎵"@
    } else if ext == "json"@ || ext == "toml"@ || ext == "yaml"@ || ext == "yml"@ || ext == "rs"@
        || ext == "py"@ || ext == "js"@ || ext == "sh"@ || ext == "css"@ || ext == "html"@ {
        "⚙"@
    } else if ext == "pdf"@ {
        "📕"@
    } else if ext == "zip"@ || ext == "gz"@ || ext == "tar"@ || ext == "xz"@ {
        "🗜"@
    } else {
        "📄"@
    }
}

/// Whether an extension is that of a picture that can be shown.
pub open spec fn image_ext_v(ext: Seq<char>) -> bool {
    ext == "png"@ || ext == "jpg"@ || ext == "jpeg"@ || ext == "gif"@ || ext == "webp"@ || ext
        == "bmp"@
}

/// Whether an extension is that of a picture that can be shown.
pub fn is_image_ext(ext: &str) -> (r: bool)
    ensures
        r == image_ext_v(ext@),
{
    same(ext, "png") || same(ext, "jpg") || same(ext, "jpeg") || same(ext, "gif") || same(
        ext,
        "webp",
    ) || same(ext, "bmp")
}

/// The sign of an entry.
pub fn explorer_glyph(is_dir: bool, ext: &str) -> (r: &'static str)
    ensures
        r@ == glyph_v(is_dir, ext@),
{
    if is_dir {
        "📁"
    } else if is_image_ext(ext) {
        "🖼"
    } else if same(ext, "mp3") || same(ext, "wav") || same(ext, "flac") || same(ext, "ogg") || same(
        ext,
        "m4a",
    ) || same(ext, "aac") {
        "🎵"
    } else if same(ext, "json") || same(ext, "toml") || same(ext, "yaml") || same(ext, "yml")
        || same(ext, "rs") || same(ext, "py") || same(ext, "js") || same(ext, "sh") || same(
        ext,
        "css",
    ) || same(ext, "html") {
        "⚙"
    } else if same(ext, "pdf") {
        "📕"
    } else if same(ext, "zip") || same(ext, "gz") || same(ext, "tar") || same(ext, "xz") {
        "🗜"
    } else {
        "📄"
    }
}

/// An entry of a folder.
#[derive(Debug, PartialEq)]
pub struct ExplorerEntry {
    pub name: String,
    pub kind: String,
    /// Empty for a folder.
    pub size_label: String,
    pub ext: String,
    /// The path below the workspace.
    pub path: String,
    /// The path from the root.
    pub abs: String,
    pub glyph: String,
}

/// The model of a [`ExplorerEntry`].
pub struct ExplorerEntryV {
    pub name: Seq<char>,
    pub kind: Seq<char>,
    pub size_label: Seq<char>,
    pub ext: Seq<char>,
    pub path: Seq<char>,
    pub abs: Seq<char>,
    pub glyph: Seq<char>,
}

impl View for ExplorerEntry {
    type V = ExplorerEntryV;

    open spec fn view(&self) -> ExplorerEntryV {
        ExplorerEntryV {
            name: self.name@,
            kind: self.kind@,
            size_label: self.size_label@,
            ext: self.ext@,
            path: self.path@,
            abs: self.abs@,
            glyph: self.glyph@,
        }
    }
}

/// An entry of a folder, from its body.
pub open spec fn explorer_row_v(j: JsonV) -> ExplorerEntryV {
    ExplorerEntryV {
        name: str_v(j, "name"@),
        kind: text_or(j, "kind"@, "file"@),
        size_label: if text_at(j, "kind"@) == Some("dir"@) {
            ""@
        } else {
            size_v(uint_or(j, "size"@, 0) as nat)
        },
        ext: str_v(j, "ext"@),
        path: str_v(j, "path"@),
        abs: str_v(j, "abs"@),
        glyph: glyph_v(text_at(j, "kind"@) == Some("dir"@), str_v(j, "ext"@)),
    }
}

fn explorer_row(j: &Json) -> (r: ExplorerEntry)
    ensures
        r@ == explorer_row_v(j@),
{
    let is_dir = match j.str_at("kind") {
        Some(k) => same(k, "dir"),
        None => false,
    };
    ExplorerEntry {
        name: json_str(j, "name"),
        kind: j.str_or("kind", "file"),
        size_label: if is_dir {
            copy("")
        } else {
            human_size(j.u64_or("size", 0))
        },
        ext: json_str(j, "ext"),
        path: json_str(j, "path"),
        abs: json_str(j, "abs"),
        glyph: copy(explorer_glyph(is_dir, json_str(j, "ext").as_str())),
    }
}

/// The rows of the first `n` entries.
pub open spec fn explorer_rows_v(a: Seq<JsonV>, n: int) -> Seq<ExplorerEntryV>
    decreases n,
{
    if n <= 0 {
        Seq::empty()
    } else {
        explorer_rows_v(a, n - 1).push(explorer_row_v(a[n - 1]))
    }
}

/// The entries of a folder.
pub fn explorer_entries(body: &Json) -> (r: Vec<ExplorerEntry>)
    ensures
        views(r@) == explorer_rows_v(items_or_none(body@, "entries"@), items_or_none(body@, "entries"@).len() as int),
{
    let arr = body.items_at("entries");
    let ghost a = views(arr@);
    let mut out: Vec<ExplorerEntry> = Vec::new();
    for i in 0..arr.len()
        invariant
            a == views(arr@),
            views(out@) == explorer_rows_v(a, i as int),
    {
        assert(a[i as int] == arr@[i as int]@);
        out.push(explorer_row(&arr[i]));
    }
    assert(a.len() == arr@.len());
    out
}

/// What a drive holds, in words.
pub open spec fn holds_v(blank: bool, label: Seq<char>, fs: Seq<char>) -> Seq<char> {
    if blank {
        "blank"@
    } else if label.len() == 0 {
        "unlabeled ("@ + fs + ")"@
    } else {
        label + " ("@ + fs + ")"@
    }
}

/// The parts of a drive's line that are there.
pub open spec fn drive_parts(j: JsonV) -> Seq<Seq<char>> {
    let model = trimmed(str_v(j, "model"@));
    let size = str_v(j, "size"@);
    (if model.len() == 0 {
        Seq::empty()
    } else {
        seq![model]
    }) + (if size.len() == 0 {
        Seq::empty()
    } else {
        seq![size]
    }) + seq![holds_v(flagged(j, "blank"@), str_v(j, "label"@), str_v(j, "fstype"@))]
}

/// A drive's line: its model, its size and what it holds, such as
/// `SanDisk Ultra · 57.3 GB · MYSTICK (exfat)`.
fn drive_line(j: &Json) -> (r: String)
    ensures
        r@ == joined(drive_parts(j@), " · "@),
{
    let model = json_str(j, "model");
    let model = trim(model.as_str());
    let size = json_str(j, "size");
    let label = json_str(j, "label");
    let fs = json_str(j, "fstype");
    let mut parts: Vec<String> = Vec::new();
    if !model.is_empty() {
        parts.push(copy(model));
    }
    if !size.as_str().is_empty() {
        parts.push(size);
    }
    let held = if json_flag(j, "blank") {
        copy("blank")
    } else if label.as_str().is_empty() {
        cat3("unlabeled (", fs.as_str(), ")")
    } else {
        let mut named = cat3(label.as_str(), " (", fs.as_str());
        named.append(")");
        named
    };
    parts.push(held);
    assert(views(parts@) =~= drive_parts(j@));
    join(&parts, " · ")
}

/// A drive that the workspace can take up.
#[derive(Debug, PartialEq)]
pub struct UsbCandidate {
    pub dev: String,
    /// What is shown of it.
    pub display: String,
    pub label: String,
}

/// The model of a [`UsbCandidate`].
pub struct UsbCandidateV {
    pub dev: Seq<char>,
    pub display: Seq<char>,
    pub label: Seq<char>,
}

impl View for UsbCandidate {
    type V = UsbCandidateV;

    open spec fn view(&self) -> UsbCandidateV {
        UsbCandidateV {
            dev: self.dev@,
            display: self.display@,
            label: self.label@,
        }
    }
}

/// A drive, from its body.
pub open spec fn drive_row_v(j: JsonV) -> UsbCandidateV {
    UsbCandidateV {
        dev: str_v(j, "dev"@),
        display: joined(drive_parts(j), " · "@),
        label: str_v(j, "label"@),
    }
}

fn drive_row(j: &Json) -> (r: UsbCandidate)
    ensures
        r@ == drive_row_v(j@),
{
    UsbCandidate {
        dev: json_str(j, "dev"),
        display: drive_line(j),
        label: json_str(j, "label"),
    }
}

/// The rows of the first `n` drives.
pub open spec fn drive_rows_v(a: Seq<JsonV>, n: int) -> Seq<UsbCandidateV>
    decreases n,
{
    if n <= 0 {
        Seq::empty()
    } else {
        drive_rows_v(a, n - 1).push(drive_row_v(a[n - 1]))
    }
}

/// The drives of a reply.
pub fn drive_candidates(body: &Json) -> (r: Vec<UsbCandidate>)
    ensures
        views(r@) == drive_rows_v(items_or_none(body@, "candidates"@), items_or_none(body@, "candidates"@).len() as int),
{
    let arr = body.items_at("candidates");
    let ghost a = views(arr@);
    let mut out: Vec<UsbCandidate> = Vec::new();
    for i in 0..arr.len()
        invariant
            a == views(arr@),
            views(out@) == drive_rows_v(a, i as int),
    {
        assert(a[i as int] == arr@[i as int]@);
        out.push(drive_row(&arr[i]));
    }
    assert(a.len() == arr@.len());
    out
}

/// The texts among the first `n` entries; one without a path or a name is passed over.
pub open spec fn texts_v(a: Seq<JsonV>, n: int) -> Seq<ImageItemV>
    decreases n,
{
    if n <= 0 {
        Seq::empty()
    } else {
        match (text_at(a[n - 1], "path"@), text_at(a[n - 1], "name"@)) {
            (Some(path), Some(name)) => texts_v(a, n - 1).push(ImageItemV { path, name }),
            _ => texts_v(a, n - 1),
        }
    }
}

/// The texts of a reply that a prompt can be loaded from.
pub fn prompt_files(body: &Json) -> (r: Vec<ImageItem>)
    ensures
        views(r@) == texts_v(
            items_or_none(body@, "texts"@),
            items_or_none(body@, "texts"@).len() as int,
        ),
{
    let arr = body.items_at("texts");
    let ghost a = views(arr@);
    let mut out: Vec<ImageItem> = Vec::new();
    for i in 0..arr.len()
        invariant
            a == views(arr@),
            views(out@) == texts_v(a, i as int),
    {
        assert(a[i as int] == arr@[i as int]@);
        match (arr[i].str_at("path"), arr[i].str_at("name")) {
            (Some(path), Some(name)) => {
                out.push(ImageItem { path: copy(path), name: copy(name) });
            },
            _ => {},
        }
    }
    assert(a.len() == arr@.len());
    out
}

// ── Contents ────────────────────────────────────────────────────────────────

/// What a file shows: its text, with a mark where it was cut. A file that is no text shows
/// nothing.
pub open spec fn content_v(body: JsonV) -> Seq<char> {
    if flagged(body, "binary"@) {
        ""@
    } else {
        str_v(body, "content"@) + given(flagged(body, "truncated"@), "\n\n… (truncated)"@)
    }
}

/// What the reply to a read holds: the text, and whether the file is no text.
pub fn explorer_read(body: &Json) -> (r: (String, bool))
    ensures
        r.0@ == content_v(body@),
        r.1 == flagged(body@, "binary"@),
{
    if json_flag(body, "binary") {
        return (copy(""), true);
    }
    let mut content = json_str(body, "content");
    let cut = json_flag(body, "truncated");
    crate::text::append_given(&mut content, cut, "\n\n… (truncated)");
    (content, false)
}

/// The text of a note, from the reply to a read that succeeded or not.
pub fn note_content(success: bool, body: &Json) -> (r: String)
    ensures
        r@ == if success {
            str_v(body@, "content"@)
        } else {
            ""@
        },
{
    if success {
        json_str(body, "content")
    } else {
        copy("")
    }
}

/// The name under which a new note was stored, where it was.
pub fn note_created(success: bool, body: &Json) -> (r: Option<String>)
    ensures
        match r {
            Some(n) => success && text_at(body@, "name"@) == Some(n@),
            None => !success || text_at(body@, "name"@) is None,
        },
{
    if success {
        match body.str_at("name") {
            Some(n) => Some(copy(n)),
            None => None,
        }
    } else {
        None
    }
}

// ── Sound ───────────────────────────────────────────────────────────────────

/// A step of the processing of a recording.
pub open spec fn step_v(name: Seq<char>) -> JsonV {
    JsonV::Obj(seq![("type"@, JsonV::Str(name))])
}

/// The steps behind a button; none for one that is not known.
pub open spec fn chain_v(op: Seq<char>) -> Seq<JsonV> {
    if op == "normalize"@ || op == "trim_silence"@ || op == "peak_limit"@ {
        seq![step_v(op)]
    } else if op == "clean"@ {
        seq![step_v("trim_silence"@), step_v("normalize"@), step_v("peak_limit"@)]
    } else {
        Seq::empty()
    }
}

fn step(name: &str) -> (r: Json)
    ensures
        r@ == step_v(name@),
{
    let mut e: Vec<(String, Json)> = Vec::new();
    put(&mut e, "type", Json::str(name));
    assert(entries(e@) =~= step_v(name@)->Obj_0);
    Json::object(e)
}

/// The steps behind a button.
pub fn audio_op_chain(op: &str) -> (r: Vec<Json>)
    ensures
        views(r@) == chain_v(op@),
{
    let mut out: Vec<Json> = Vec::new();
    if same(op, "normalize") || same(op, "trim_silence") || same(op, "peak_limit") {
        out.push(step(op));
    } else if same(op, "clean") {
        out.push(step("trim_silence"));
        out.push(step("normalize"));
        out.push(step("peak_limit"));
    }
    assert(views(out@) =~= chain_v(op@));
    out
}

/// A level with one place behind the point; far below any sound where none was measured.
pub open spec fn level_v(j: JsonV, key: Seq<char>) -> Seq<char> {
    match num_at(j, key) {
        Some(n) => n.tenths,
        None => "-99.0"@,
    }
}

fn level(j: &Json, key: &str) -> (r: String)
    ensures
        r@ == level_v(j@, key@),
{
    match j.num_at(key) {
        Some(n) => copy(n.tenths.as_str()),
        None => copy("-99.0"),
    }
}

/// Whether a reply holds an error: anything but nothing in its place.
pub open spec fn failed_v(j: JsonV) -> bool {
    match field(j, "error"@) {
        Some(e) => e != JsonV::Null,
        None => false,
    }
}

/// What a measurement of a recording says, in one line.
pub open spec fn stats_v(j: JsonV) -> Seq<char> {
    if failed_v(j) {
        "analyze failed: "@ + text_or(j, "error"@, "?"@)
    } else {
        text_or(j, "format"@, "?"@) + " · "@ + dec((uint_or(j, "sample_rate"@, 0) / 1000) as nat)
            + " kHz · "@ + dec(uint_or(j, "channels"@, 0) as nat) + "ch    LUFS "@ + level_v(
            j,
            "lufs_integrated"@,
        ) + " · peak "@ + level_v(j, "peak_db"@) + " dB · RMS "@ + level_v(j, "rms_db"@) + " dB"@
            + given(flagged(j, "has_clipping"@), " · ⚠ clipping"@)
    }
}

/// What a measurement of a recording says, in one line.
pub fn audio_stats(j: &Json) -> (r: String)
    ensures
        r@ == stats_v(j@),
{
    let failed = match j.get("error") {
        Some(e) => match e {
            Json::Null => false,
            _ => true,
        },
        None => false,
    };
    if failed {
        cat("analyze failed: ", j.str_or("error", "?").as_str())
    } else {
        let mut out = cat(j.str_or("format", "?").as_str(), " · ");
        out.append(dec_u64(j.u64_or("sample_rate", 0) / 1000).as_str());
        out.append(" kHz · ");
        out.append(dec_u64(j.u64_or("channels", 0)).as_str());
        out.append("ch    LUFS ");
        out.append(level(j, "lufs_integrated").as_str());
        out.append(" · peak ");
        out.append(level(j, "peak_db").as_str());
        out.append(" dB · RMS ");
        out.append(level(j, "rms_db").as_str());
        out.append(" dB");
        crate::text::append_given(&mut out, json_flag(j, "has_clipping"), " · ⚠ clipping");
        out
    }
}

// ── The explorer ────────────────────────────────────────────────────────────

/// What the preview of the explorer shows.
#[derive(Clone, Copy, Debug, PartialEq, Eq, Structural)]
pub enum Preview {
    Nothing,
    Image,
    Text,
    /// A file that cannot be shown.
    Binary,
}

/// The explorer: the folder in view, and the file that was picked in it.
#[derive(Debug)]
pub struct Explorer {
    pub current_path: String,
    pub selected_path: String,
    pub selected_name: String,
    pub selected_info: String,
    pub preview: Preview,
    pub preview_text: String,
    /// Whether the picked file can go with a prompt.
    pub can_attach: bool,
}

/// The model of an [`Explorer`].
pub struct ExplorerV {
    pub current_path: Seq<char>,
    pub selected_path: Seq<char>,
    pub selected_name: Seq<char>,
    pub selected_info: Seq<char>,
    pub preview: Preview,
    pub preview_text: Seq<char>,
    pub can_attach: bool,
}

impl View for Explorer {
    type V = ExplorerV;

    open spec fn view(&self) -> ExplorerV {
        ExplorerV {
            current_path: self.current_path@,
            selected_path: self.selected_path@,
            selected_name: self.selected_name@,
            selected_info: self.selected_info@,
            preview: self.preview,
            preview_text: self.preview_text@,
            can_attach: self.can_attach,
        }
    }
}

/// A folder in view, and nothing picked.
pub open spec fn folder_v(path: Seq<char>) -> ExplorerV {
    ExplorerV {
        current_path: path,
        selected_path: Seq::empty(),
        selected_name: Seq::empty(),
        selected_info: Seq::empty(),
        preview: Preview::Nothing,
        preview_text: Seq::empty(),
        can_attach: false,
    }
}

/// The folder above; the workspace itself above its own folders.
pub open spec fn parent_v(path: Seq<char>) -> Seq<char> {
    match before_last_v(path, '/') {
        Some(p) => p,
        None => Seq::empty(),
    }
}

/// Where a new entry of a folder goes.
pub open spec fn below_v(folder: Seq<char>, name: Seq<char>) -> Seq<char> {
    if folder.len() == 0 {
        name
    } else {
        folder + "/"@ + name
    }
}

/// What is said of a picture, by its kind in capitals; its size is there where it could
/// be read.
pub open spec fn image_info_v(upper: Seq<char>, size: Option<(u32, u32)>) -> Seq<char> {
    match size {
        Some((w, h)) => upper + " · "@ + dec(w as nat) + "×"@ + dec(h as nat),
        None => upper + " image (no preview)"@,
    }
}

/// What is said of a picture, by its kind in capitals.
pub fn image_info(upper: &str, size: Option<(u32, u32)>) -> (r: String)
    ensures
        r@ == image_info_v(upper@, size),
{
    match size {
        Some((w, h)) => {
            let mut info = cat3(upper, " · ", dec_u64(w as u64).as_str());
            info.append("×");
            info.append(dec_u64(h as u64).as_str());
            info
        },
        None => cat(upper, " image (no preview)"),
    }
}

/// What is said of a file that is no picture, by its kind in capitals.
pub open spec fn file_info_v(upper: Seq<char>) -> Seq<char> {
    upper + " file"@
}

/// What is said of a file that is no picture, by its kind in capitals.
pub fn file_info(upper: &str) -> (r: String)
    ensures
        r@ == file_info_v(upper@),
{
    cat(upper, " file")
}

/// The explorer with a picture picked; its size is there where it could be read.
pub open spec fn picture_picked(
    x: ExplorerV,
    path: Seq<char>,
    ext: Seq<char>,
    size: Option<(u32, u32)>,
) -> ExplorerV {
    ExplorerV {
        selected_path: path,
        selected_name: after_last_v(path, '/'),
        selected_info: image_info_v(upper_case(ext), size),
        preview: match size {
            Some(_) => Preview::Image,
            None => Preview::Binary,
        },
        preview_text: Seq::empty(),
        can_attach: true,
        ..x
    }
}

/// The explorer with a file picked that is no picture; its text comes later.
pub open spec fn file_picked(x: ExplorerV, path: Seq<char>, ext: Seq<char>) -> ExplorerV {
    ExplorerV {
        selected_path: path,
        selected_name: after_last_v(path, '/'),
        selected_info: if ext.len() == 0 {
            "file"@
        } else {
            file_info_v(upper_case(ext))
        },
        can_attach: false,
        ..x
    }
}

/// The explorer with the reply to a read.
pub open spec fn file_read(x: ExplorerV, body: JsonV) -> ExplorerV {
    if flagged(body, "binary"@) {
        ExplorerV { preview: Preview::Binary, preview_text: Seq::empty(), ..x }
    } else {
        ExplorerV { preview: Preview::Text, preview_text: content_v(body), ..x }
    }
}

/// The explorer once an entry is gone: a preview of it is cleared.
pub open spec fn entry_gone(x: ExplorerV, path: Seq<char>) -> ExplorerV {
    if x.selected_path == path {
        folder_v(x.current_path)
    } else {
        x
    }
}

/// Something asked of the workspace.
#[derive(Debug)]
pub enum WorkspaceOp {
    /// A new folder in the folder in view.
    NewFolder { name: String },
    Rename { path: String, name: String },
    Delete { path: String },
    /// The entry that was cut or copied goes into the folder in view.
    Paste { src: String, cut: bool },
}

/// The model of a [`WorkspaceOp`].
pub enum WorkspaceOpV {
    NewFolder { name: Seq<char> },
    Rename { path: Seq<char>, name: Seq<char> },
    Delete { path: Seq<char> },
    Paste { src: Seq<char>, cut: bool },
}

impl View for WorkspaceOp {
    type V = WorkspaceOpV;

    open spec fn view(&self) -> WorkspaceOpV {
        match self {
            WorkspaceOp::NewFolder { name } => WorkspaceOpV::NewFolder { name: name@ },
            WorkspaceOp::Rename { path, name } => WorkspaceOpV::Rename { path: path@, name: name@ },
            WorkspaceOp::Delete { path } => WorkspaceOpV::Delete { path: path@ },
            WorkspaceOp::Paste { src, cut } => WorkspaceOpV::Paste { src: src@, cut: *cut },
        }
    }
}

/// The last part of the address that an operation is sent to.
pub open spec fn endpoint_v(op: WorkspaceOpV) -> Seq<char> {
    match op {
        WorkspaceOpV::NewFolder { .. } => "mkdir"@,
        WorkspaceOpV::Rename { .. } => "rename"@,
        WorkspaceOpV::Delete { .. } => "delete"@,
        WorkspaceOpV::Paste { cut, .. } => if cut {
            "move"@
        } else {
            "copy"@
        },
    }
}

/// What an operation sends, with the folder that is in view.
pub open spec fn op_body_v(op: WorkspaceOpV, folder: Seq<char>) -> JsonV {
    match op {
        WorkspaceOpV::NewFolder { name } => JsonV::Obj(
            seq![("path"@, JsonV::Str(below_v(folder, name)))],
        ),
        WorkspaceOpV::Rename { path, name } => JsonV::Obj(
            seq![("path"@, JsonV::Str(path)), ("name"@, JsonV::Str(name))],
        ),
        WorkspaceOpV::Delete { path } => JsonV::Obj(seq![("path"@, JsonV::Str(path))]),
        WorkspaceOpV::Paste { src, .. } => JsonV::Obj(
            seq![("src"@, JsonV::Str(src)), ("dest"@, JsonV::Str(folder))],
        ),
    }
}

/// What the reply to an operation comes to: `Ok`, or why it failed.
pub open spec fn op_outcome_v(body: JsonV) -> Result<(), Seq<char>> {
    if flagged(body, "ok"@) {
        Ok(())
    } else {
        Err(str_v(body, "error"@))
    }
}

/// What the status line says once an operation is over.
pub open spec fn op_status_v(op: WorkspaceOpV, r: Result<(), Seq<char>>) -> Seq<char> {
    match r {
        Ok(_) => match op {
            WorkspaceOpV::NewFolder { name } => "Created folder "@ + name,
            WorkspaceOpV::Rename { name, .. } => "Renamed to "@ + name,
            WorkspaceOpV::Delete { path } => "Deleted "@ + after_last_v(path, '/'),
            WorkspaceOpV::Paste { src, cut } => (if cut {
                "Moved "@
            } else {
                "Copied "@
            }) + after_last_v(src, '/'),
        },
        Err(e) => (match op {
            WorkspaceOpV::NewFolder { .. } => "New folder failed: "@,
            WorkspaceOpV::Rename { .. } => "Rename failed: "@,
            WorkspaceOpV::Delete { .. } => "Delete failed: "@,
            WorkspaceOpV::Paste { .. } => "Paste failed: "@,
        }) + e,
    }
}

/// The explorer once an operation is over.
pub open spec fn op_done_v(x: ExplorerV, op: WorkspaceOpV, r: Result<(), Seq<char>>) -> ExplorerV {
    match (op, r) {
        (WorkspaceOpV::Delete { path }, Ok(_)) => entry_gone(x, path),
        _ => x,
    }
}

/// The model of how an operation ended.
pub open spec fn ended(r: Result<(), String>) -> Result<(), Seq<char>> {
    match r {
        Ok(_) => Ok(()),
        Err(e) => Err(e@),
    }
}

impl WorkspaceOp {
    /// The last part of the address that the operation is sent to.
    pub fn endpoint(&self) -> (r: &'static str)
        ensures
            r@ == endpoint_v(self@),
    {
        match self {
            WorkspaceOp::NewFolder { .. } => "mkdir",
            WorkspaceOp::Rename { .. } => "rename",
            WorkspaceOp::Delete { .. } => "delete",
            WorkspaceOp::Paste { cut, .. } => if *cut {
                "move"
            } else {
                "copy"
            },
        }
    }

    /// What the operation sends, with the folder that is in view.
    pub fn body(&self, folder: &str) -> (r: Json)
        ensures
            r@ == op_body_v(self@, folder@),
    {
        let mut e: Vec<(String, Json)> = Vec::new();
        match self {
            WorkspaceOp::NewFolder { name } => {
                let path = if folder.is_empty() {
                    copy(name.as_str())
                } else {
                    cat3(folder, "/", name.as_str())
                };
                put(&mut e, "path", Json::str(path.as_str()));
            },
            WorkspaceOp::Rename { path, name } => {
                put(&mut e, "path", Json::str(path.as_str()));
                put(&mut e, "name", Json::str(name.as_str()));
            },
            WorkspaceOp::Delete { path } => {
                put(&mut e, "path", Json::str(path.as_str()));
            },
            WorkspaceOp::Paste { src, .. } => {
                put(&mut e, "src", Json::str(src.as_str()));
                put(&mut e, "dest", Json::str(folder));
            },
        }
        assert(entries(e@) =~= op_body_v(self@, folder@)->Obj_0);
        Json::object(e)
    }

    /// What the status line says once the operation is over.
    pub fn status(&self, r: &Result<(), String>) -> (s: String)
        ensures
            s@ == op_status_v(self@, ended(*r)),
    {
        match r {
            Ok(_) => match self {
                WorkspaceOp::NewFolder { name } => cat("Created folder ", name.as_str()),
                WorkspaceOp::Rename { name, .. } => cat("Renamed to ", name.as_str()),
                WorkspaceOp::Delete { path } => cat("Deleted ", after_last(path.as_str(), '/')),
                WorkspaceOp::Paste { src, cut } => {
                    let verb = if *cut {
                        "Moved "
                    } else {
                        "Copied "
                    };
                    cat(verb, after_last(src.as_str(), '/'))
                },
            },
            Err(e) => {
                let what = match self {
                    WorkspaceOp::NewFolder { .. } => "New folder failed: ",
                    WorkspaceOp::Rename { .. } => "Rename failed: ",
                    WorkspaceOp::Delete { .. } => "Delete failed: ",
                    WorkspaceOp::Paste { .. } => "Paste failed: ",
                };
                cat(what, e.as_str())
            },
        }
    }
}

/// What the reply to an operation comes to. A request that went wrong has no reply.
pub fn workspace_op(reply: Result<Json, String>) -> (r: Result<(), String>)
    ensures
        ended(r) == match reply {
            Ok(body) => op_outcome_v(body@),
            Err(e) => Err("request failed: "@ + e@),
        },
{
    match reply {
        Ok(body) => if json_flag(&body, "ok") {
            Ok(())
        } else {
            Err(json_str(&body, "error"))
        },
        Err(e) => Err(cat("request failed: ", e.as_str())),
    }
}

impl Explorer {
    /// The workspace itself in view.
    pub fn new() -> (r: Explorer)
        ensures
            r@ == folder_v(Seq::empty()),
    {
        let r = Explorer {
            current_path: String::new(),
            selected_path: String::new(),
            selected_name: String::new(),
            selected_info: String::new(),
            preview: Preview::Nothing,
            preview_text: String::new(),
            can_attach: false,
        };
        r
    }

    /// Enters a folder; nothing is picked in it.
    pub fn navigate(&mut self, path: &str)
        ensures
            final(self)@ == folder_v(path@),
    {
        *self = Explorer::new();
        self.current_path = copy(path);
    }

    /// Enters the folder above. From the workspace itself there is none, and nothing
    /// happens.
    pub fn up(&mut self) -> (moved: bool)
        ensures
            moved == (old(self)@.current_path.len() > 0),
            final(self)@ == if moved {
                folder_v(parent_v(old(self)@.current_path))
            } else {
                old(self)@
            },
    {
        if self.current_path.as_str().is_empty() {
            return false;
        }
        let above = match before_last(self.current_path.as_str(), '/') {
            Some(p) => copy(p),
            None => String::new(),
        };
        self.navigate(above.as_str());
        true
    }

    /// A picture was picked. Its size is handed in where it could be read.
    pub fn select_image(&mut self, path: &str, ext: &str, size: Option<(u32, u32)>)
        ensures
            final(self)@ == picture_picked(old(self)@, path@, ext@, size),
    {
        self.selected_path = copy(path);
        self.selected_name = copy(after_last(path, '/'));
        self.selected_info = image_info(to_upper(ext).as_str(), size);
        self.preview = match size {
            Some(_) => Preview::Image,
            None => Preview::Binary,
        };
        self.preview_text = String::new();
        self.can_attach = true;
    }

    /// A file that is no picture was picked.
    pub fn select_file(&mut self, path: &str, ext: &str)
        ensures
            final(self)@ == file_picked(old(self)@, path@, ext@),
    {
        self.selected_path = copy(path);
        self.selected_name = copy(after_last(path, '/'));
        self.can_attach = false;
        self.selected_info = if ext.is_empty() {
            copy("file")
        } else {
            file_info(to_upper(ext).as_str())
        };
    }

    /// The picked file was read.
    pub fn show(&mut self, body: &Json)
        ensures
            final(self)@ == file_read(old(self)@, body@),
    {
        let (content, binary) = explorer_read(body);
        if binary {
            self.preview = Preview::Binary;
            self.preview_text = String::new();
        } else {
            self.preview = Preview::Text;
            self.preview_text = content;
        }
    }

    /// An operation on the workspace is over.
    pub fn done(&mut self, op: &WorkspaceOp, r: &Result<(), String>)
        ensures
            final(self)@ == op_done_v(old(self)@, op@, ended(*r)),
    {
        match (op, r) {
            (WorkspaceOp::Delete { path }, Ok(_)) => {
                if same(path.as_str(), self.selected_path.as_str()) {
                    let cur = copy(self.current_path.as_str());
                    self.navigate(cur.as_str());
                }
            },
            _ => {},
        }
    }
}

/// Whether a drive could be ejected.
pub fn eject_status(ok: bool, label: &str) -> (r: String)
    ensures
        r@ == if ok {
            "Ejected "@ + label@ + " — safe to remove"@
        } else {
            "Eject failed: "@ + label@
        },
{
    if ok {
        cat3("Ejected ", label, " — safe to remove")
    } else {
        cat("Eject failed: ", label)
    }
}

/// What the taking up of a drive comes to: the status line, or what the dialog says.
pub open spec fn prepared_v(body: JsonV) -> Result<Seq<char>, Seq<char>> {
    if flagged(body, "ok"@) {
        Ok("Drive ready: "@ + str_v(body, "label"@) + " (in media/)"@)
    } else {
        Err("Couldn't set up the drive: "@ + text_or(body, "error"@, "prep failed"@))
    }
}

/// What the taking up of a drive comes to. On success the explorer goes where the
/// drives are.
pub fn drive_prepared(body: &Json, x: &mut Explorer) -> (r: Result<String, String>)
    ensures
        match r {
            Ok(s) => prepared_v(body@) == Ok::<Seq<char>, Seq<char>>(s@) && final(x)@ == folder_v(
                "media"@,
            ),
            Err(e) => prepared_v(body@) == Err::<Seq<char>, Seq<char>>(e@) && final(x)@ == old(
                x,
            )@,
        },
{
    if json_flag(body, "ok") {
        x.navigate("media");
        Ok(cat3("Drive ready: ", json_str(body, "label").as_str(), " (in media/)"))
    } else {
        Err(cat("Couldn't set up the drive: ", body.str_or("error", "prep failed").as_str()))
    }
}

// ── Laws ────────────────────────────────────────────────────────────────────

/// A new entry of a folder stands in that folder: where its name has no slash of its
/// own, the folder above it is the folder it was made in.
pub proof fn new_entry_is_below_its_folder(folder: Seq<char>, name: Seq<char>)
    requires
        !name.contains('/'),
    ensures
        parent_v(below_v(folder, name)) == folder,
{
    let path = below_v(folder, name);
    if folder.len() == 0 {
        no_place(name, '/', name.len() as int);
    } else {
        assert("/"@ =~= seq!['/']) by {
            reveal_strlit("/");
        }
        place_of_last(folder + seq!['/'], name, folder.len() as int, path.len() as int);
        assert(path =~= folder + seq!['/'] + name);
        assert(path.take(folder.len() as int) =~= folder);
    }
}

proof fn no_place(s: Seq<char>, c: char, n: int)
    requires
        !s.contains(c),
        0 <= n <= s.len(),
    ensures
        crate::text::last_place(s, c, n) == -1,
    decreases n,
{
    if n > 0 {
        assert(s.contains(s[n - 1]));
        no_place(s, c, n - 1);
    }
}

proof fn place_of_last(front: Seq<char>, name: Seq<char>, at: int, n: int)
    requires
        front.len() == at + 1,
        at >= 0,
        front[at] == '/',
        !name.contains('/'),
        at < n <= at + 1 + name.len(),
    ensures
        crate::text::last_place(front + name, '/', n) == at,
    decreases n,
{
    if n > at + 1 {
        assert((front + name)[n - 1] == name[n - 1 - at - 1]);
        assert(name.contains(name[n - 1 - at - 1]));
        place_of_last(front, name, at, n - 1);
    }
}

/// A deleted entry leaves no preview behind, and any other preview stays.
pub proof fn deletion_clears_its_own_preview(x: ExplorerV, path: Seq<char>)
    requires
        path.len() > 0,
    ensures
        op_done_v(x, WorkspaceOpV::Delete { path }, Ok(())).selected_path != path,
        x.selected_path != path ==> op_done_v(x, WorkspaceOpV::Delete { path }, Ok(())) == x,
        op_done_v(x, WorkspaceOpV::Delete { path }, Ok(())).current_path == x.current_path,
{
}

/// An operation that failed leaves the explorer as it is.
pub proof fn failure_changes_nothing(x: ExplorerV, op: WorkspaceOpV, why: Seq<char>)
    ensures
        op_done_v(x, op, Err(why)) == x,
{
}

/// Only pictures can go with a prompt.
pub proof fn only_pictures_attach(
    x: ExplorerV,
    path: Seq<char>,
    ext: Seq<char>,
    size: Option<(u32, u32)>,
)
    ensures
        picture_picked(x, path, ext, size).can_attach,
        !file_picked(x, path, ext).can_attach,
{
}

} // verus!
