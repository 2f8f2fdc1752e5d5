//! How files are listed and read, and what is asked of the workspace.
use vstd::prelude::*;
use crate::cut_laws::says;
use crate::files::{
    audio_files_v, chain_v, endpoint_v, explorer_rows_v, file_picked, file_read,
    op_body_v, picture_picked, stats_v, step_v, texts_v, workspace_images_v, ExplorerV, Preview,
    WorkspaceOpV,
};
use crate::json::{field, flagged, text_at, text_or, uint_or, JsonV};
use crate::numbers::size_v;
use crate::text::after_last_v;

verus! {

/// The entries of a folder are listed in their order. A file is told with its size; a folder
/// has none, and is told apart.
pub proof fn entries_are_listed(a: Seq<JsonV>, n: int, i: int)
    requires
        0 <= i < n <= a.len(),
    ensures
        explorer_rows_v(a, n).len() == n,
        ({
            let r = explorer_rows_v(a, n)[i];
            &&& r.name == text_or(a[i], "name"@, ""@)
            &&& r.path == text_or(a[i], "path"@, ""@)
            &&& text_at(a[i], "kind"@) == Some("dir"@) ==> r.size_label.len() == 0 && r.glyph
                == "📁"@ && r.kind == "dir"@
            &&& text_at(a[i], "kind"@) is None ==> r.kind == "file"@ && r.size_label == size_v(
                uint_or(a[i], "size"@, 0) as nat,
            )
        }),
    decreases n,
{
    reveal_strlit("");
    if n == 1 {
        assert(explorer_rows_v(a, 0).len() == 0);
    } else if i < n - 1 {
        entries_are_listed(a, n - 1, i);
    } else {
        entries_are_listed(a, n - 1, 0);
    }
}

/// Pictures and recordings are listed in their order, each by its path and its name.
pub proof fn media_are_listed(a: Seq<JsonV>, n: int, i: int)
    requires
        0 <= i < n <= a.len(),
    ensures
        workspace_images_v(a, n).len() == n && audio_files_v(a, n).len() == n,
        workspace_images_v(a, n)[i].path == text_or(a[i], "path"@, ""@),
        workspace_images_v(a, n)[i].name == text_or(a[i], "name"@, ""@),
        audio_files_v(a, n)[i].path == text_or(a[i], "path"@, ""@),
        audio_files_v(a, n)[i].name == text_or(a[i], "name"@, ""@),
        audio_files_v(a, n)[i].size_label == size_v(uint_or(a[i], "size"@, 0) as nat),
    decreases n,
{
    if n == 1 {
        assert(workspace_images_v(a, 0).len() == 0 && audio_files_v(a, 0).len() == 0);
    } else if i < n - 1 {
        media_are_listed(a, n - 1, i);
    } else {
        media_are_listed(a, n - 1, 0);
    }
}

/// A text with a path and a name is offered.
pub proof fn named_texts_are_offered(a: Seq<JsonV>, n: int, i: int)
    requires
        0 <= i < n <= a.len(),
        text_at(a[i], "path"@) is Some,
        text_at(a[i], "name"@) is Some,
    ensures
        exists|j: int|
            0 <= j < texts_v(a, n).len() && Some((#[trigger] texts_v(a, n)[j]).path) == text_at(
                a[i],
                "path"@,
            ) && Some(texts_v(a, n)[j].name) == text_at(a[i], "name"@),
    decreases n,
{
    let q = texts_v(a, n);
    if i == n - 1 {
        assert(Some(q[q.len() - 1].path) == text_at(a[i], "path"@));
    } else {
        named_texts_are_offered(a, n - 1, i);
        let p = texts_v(a, n - 1);
        let j = choose|j: int|
            0 <= j < p.len() && Some((#[trigger] p[j]).path) == text_at(a[i], "path"@) && Some(
                p[j].name,
            ) == text_at(a[i], "name"@);
        assert(q[j] == p[j]);
    }
}

/// A file is shown as it was read; of one that was cut short it is told, and one that is no
/// text is not shown.
pub proof fn files_are_shown(x: ExplorerV, body: JsonV)
    ensures
        ({
            let y = file_read(x, body);
            let read = text_or(body, "content"@, ""@);
            &&& flagged(body, "binary"@) ==> y.preview == Preview::Binary && y.preview_text.len()
                == 0
            &&& !flagged(body, "binary"@) ==> y.preview == Preview::Text
            &&& !flagged(body, "binary"@) && !flagged(body, "truncated"@) ==> y.preview_text
                == read
            &&& !flagged(body, "binary"@) && flagged(body, "truncated"@) ==> y.preview_text
                == read + "\n\n… (truncated)"@
            &&& y.selected_path == x.selected_path && y.current_path == x.current_path
        }),
{
    assert(text_or(body, "content"@, ""@) + Seq::<char>::empty() =~= text_or(
        body,
        "content"@,
        ""@,
    ));
}

/// What is picked is what is selected, by its own name.
pub proof fn picked_files_are_selected(
    x: ExplorerV,
    path: Seq<char>,
    ext: Seq<char>,
    size: Option<(u32, u32)>,
)
    ensures
        file_picked(x, path, ext).selected_path == path,
        file_picked(x, path, ext).selected_name == after_last_v(path, '/'),
        picture_picked(x, path, ext, size).selected_path == path,
        picture_picked(x, path, ext, size).selected_name == after_last_v(path, '/'),
        size is Some ==> picture_picked(x, path, ext, size).preview == Preview::Image,
        size is None ==> picture_picked(x, path, ext, size).preview == Preview::Binary,
{
}

/// Each wish asks its own place: a new folder in the folder in view, a new name for an entry,
/// an entry to go, or one to be moved or copied into the folder in view.
pub proof fn wishes_are_asked_for(
    folder: Seq<char>,
    path: Seq<char>,
    name: Seq<char>,
    cut: bool,
)
    ensures
        endpoint_v(WorkspaceOpV::NewFolder { name }) == "mkdir"@,
        folder.len() == 0 ==> says(
            op_body_v(WorkspaceOpV::NewFolder { name }, folder),
            "path"@,
            JsonV::Str(name),
        ),
        folder.len() > 0 ==> says(
            op_body_v(WorkspaceOpV::NewFolder { name }, folder),
            "path"@,
            JsonV::Str(folder + "/"@ + name),
        ),
        endpoint_v(WorkspaceOpV::Rename { path, name }) == "rename"@,
        says(op_body_v(WorkspaceOpV::Rename { path, name }, folder), "path"@, JsonV::Str(path)),
        says(op_body_v(WorkspaceOpV::Rename { path, name }, folder), "name"@, JsonV::Str(name)),
        endpoint_v(WorkspaceOpV::Delete { path }) == "delete"@,
        says(op_body_v(WorkspaceOpV::Delete { path }, folder), "path"@, JsonV::Str(path)),
        cut ==> endpoint_v(WorkspaceOpV::Paste { src: path, cut }) == "move"@,
        !cut ==> endpoint_v(WorkspaceOpV::Paste { src: path, cut }) == "copy"@,
        says(op_body_v(WorkspaceOpV::Paste { src: path, cut }, folder), "src"@, JsonV::Str(path)),
        says(
            op_body_v(WorkspaceOpV::Paste { src: path, cut }, folder),
            "dest"@,
            JsonV::Str(folder),
        ),
{
    let a = op_body_v(WorkspaceOpV::NewFolder { name }, folder)->Obj_0;
    let b = op_body_v(WorkspaceOpV::Rename { path, name }, folder)->Obj_0;
    let c = op_body_v(WorkspaceOpV::Delete { path }, folder)->Obj_0;
    let d = op_body_v(WorkspaceOpV::Paste { src: path, cut }, folder)->Obj_0;
    assert(a[0].0 == "path"@ && c[0].0 == "path"@);
    assert(b[0].0 == "path"@ && b[1].0 == "name"@);
    assert(d[0].0 == "src"@ && d[1].0 == "dest"@);
}

/// Cleaning a recording trims it, levels it and limits its peaks, in this order; each of these
/// can be asked for alone.
pub proof fn recordings_are_worked_on(op: Seq<char>)
    ensures
        op == "normalize"@ || op == "trim_silence"@ || op == "peak_limit"@ ==> chain_v(op)
            == seq![step_v(op)],
        op == "clean"@ ==> chain_v(op) == seq![
            step_v("trim_silence"@),
            step_v("normalize"@),
            step_v("peak_limit"@),
        ],
        says(step_v(op), "type"@, JsonV::Str(op)),
{
    reveal_strlit("clean");
    reveal_strlit("normalize");
    reveal_strlit("trim_silence");
    reveal_strlit("peak_limit");
    assert("clean"@.len() == 5 && "normalize"@.len() == 9 && "trim_silence"@.len() == 12);
    assert("peak_limit"@.len() == 10);
    assert(step_v(op)->Obj_0[0] == ("type"@, JsonV::Str(op)));
}

/// A recording that could not be looked at says why.
pub proof fn failed_looks_say_why(j: JsonV, why: Seq<char>)
    requires
        field(j, "error"@) == Some(JsonV::Str(why)),
    ensures
        stats_v(j) == "analyze failed: "@ + why,
{
}

} // verus!
