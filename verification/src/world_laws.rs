//! What is sent from a station, and what is heard there.
use vstd::prelude::*;
use crate::cut_laws::{says, silent};
use crate::json::JsonV;
use crate::shell::prompt_frame;
use crate::world::{shown_v, spoken, HudV, WorldEventV};

verus! {

/// A prompt is sent as it was typed; a picture goes with it only where one was chosen.
pub proof fn prompts_are_sent(text: Seq<char>, picture: Seq<char>)
    ensures
        says(prompt_frame(text, picture), "type"@, JsonV::Str("user_prompt"@)),
        says(prompt_frame(text, picture), "text"@, JsonV::Str(text)),
        picture.len() == 0 ==> silent(prompt_frame(text, picture), "images"@),
        picture.len() > 0 ==> exists|p: JsonV| #[trigger]
            says(p, "path"@, JsonV::Str(picture)) && says(
                prompt_frame(text, picture),
                "images"@,
                JsonV::Arr(seq![p]),
            ),
{
    reveal_strlit("type");
    reveal_strlit("text");
    reveal_strlit("images");
    assert("type"@.len() == 4 && "text"@.len() == 4 && "images"@.len() == 6);
    let e = prompt_frame(text, picture)->Obj_0;
    assert(e[0] == ("type"@, JsonV::Str("user_prompt"@)));
    assert(e[1] == ("text"@, JsonV::Str(text)));
    if picture.len() > 0 {
        let f = seq![("path"@, JsonV::Str(picture))];
        let p = JsonV::Obj(f);
        assert(f[0] == ("path"@, JsonV::Str(picture)));
        assert(says(p, "path"@, JsonV::Str(picture)));
        assert(e[2] == ("images"@, JsonV::Arr(seq![p])));
    } else {
        assert(e.len() == 2);
    }
}

/// What the agent says at a station goes on its last line there, or starts one; where nobody
/// is at a station, nothing is heard.
pub proof fn stations_hear_the_agent(h: HudV, session: u64, delta: Seq<char>)
    ensures
        ({
            let g = shown_v(h, WorldEventV::AgentTextDelta { session, delta });
            &&& h.station < 0 ==> g == h
            &&& h.station >= 0 && h.lines.len() > 0 && h.lines.last().0 == "agent"@
                ==> g.lines.len() == h.lines.len() && g.lines.last() == (
                "agent"@,
                h.lines.last().1 + delta,
            ) && g.lines.drop_last() == h.lines.drop_last()
            &&& h.station >= 0 && (h.lines.len() == 0 || h.lines.last().0 != "agent"@)
                ==> g.lines.drop_last() == h.lines && g.lines.last() == ("agent"@, delta)
        }),
{
    let l = spoken(h.lines, delta);
    if h.lines.len() > 0 && h.lines.last().0 == "agent"@ {
        assert(l.drop_last() =~= h.lines.drop_last());
    } else {
        assert(l.drop_last() =~= h.lines);
    }
}

} // verus!
