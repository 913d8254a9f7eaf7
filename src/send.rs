use vstd::prelude::*;

use crate::api::{is_success, note_json, notes_url, notes_url_of, status_ok};
use crate::config::CompleteConfig;
use crate::text::{json_escaped, lemma_escape_concat, push_json_escaped};

verus! {

/// The text of each line.
pub open spec fn lines_view(lines: Seq<String>) -> Seq<Seq<char>> {
    lines.map_values(|l: String| l@)
}

/// The note text read from input lines: each line followed by a newline.
pub open spec fn joined(lines: Seq<Seq<char>>) -> Seq<char>
    decreases lines.len(),
{
    if lines.len() == 0 {
        seq![]
    } else {
        joined(lines.drop_last()) + lines.last() + seq!['\n']
    }
}

/// The request that posts a note.
#[derive(Debug, PartialEq, Eq)]
pub struct NoteRequest {
    pub url: String,
    pub token: String,
    pub body: String,
}

/// Why a note was not created.
#[derive(Debug, Clone, Copy, PartialEq, Eq)]
pub enum SendError {
    /// The tracker answered with a status outside the success range.
    Rejected { status: u16 },
}

/// The note text made of `lines`, each followed by a newline.
pub fn join_lines(lines: &Vec<String>) -> (r: String)
    ensures
        r@ == joined(lines_view(lines@)),
{
    let mut r = String::new();
    let mut i: usize = 0;
    while i < lines.len()
        invariant
            i <= lines.len(),
            r@ == joined(lines_view(lines@.subrange(0, i as int))),
        decreases lines.len() - i,
    {
        r.append(lines[i].as_str());
        r.append("\n");
        proof {
            reveal_strlit("\n");
            let pre = lines@.subrange(0, i + 1);
            assert(lines_view(pre).drop_last() == lines_view(lines@.subrange(0, i as int)));
            assert(lines_view(pre).last() == lines@[i as int]@);
        }
        i = i + 1;
    }
    assert(lines@.subrange(0, lines.len() as int) == lines@);
    r
}

/// The request body that creates a note whose text is `lines`, each
/// followed by a newline.
pub fn note_payload_for_lines(lines: &Vec<String>) -> (r: String)
    ensures
        r@ == note_json(joined(lines_view(lines@))),
{
    let mut r = String::from_str("{\"body\":\"");
    let ghost start = r@;
    let mut i: usize = 0;
    while i < lines.len()
        invariant
            i <= lines.len(),
            r@ == start + json_escaped(joined(lines_view(lines@.subrange(0, i as int)))),
        decreases lines.len() - i,
    {
        push_json_escaped(&mut r, lines[i].as_str());
        push_json_escaped(&mut r, "\n");
        proof {
            reveal_strlit("\n");
            let pre = lines@.subrange(0, i + 1);
            let before = joined(lines_view(lines@.subrange(0, i as int)));
            let line = lines@[i as int]@;
            assert(lines_view(pre).drop_last() == lines_view(lines@.subrange(0, i as int)));
            assert(lines_view(pre).last() == line);
            lemma_escape_concat(before, line);
            lemma_escape_concat(before + line, seq!['\n']);
            assert("\n"@ == seq!['\n']);
            assert(joined(lines_view(pre)) == before + line + seq!['\n']);
            assert(json_escaped(before + line + seq!['\n']) == json_escaped(before)
                + json_escaped(line) + json_escaped(seq!['\n']));
        }
        i = i + 1;
    }
    assert(lines@.subrange(0, lines.len() as int) == lines@);
    r.append("\"}");
    r
}

/// The request that posts `lines` as a note on the configured issue.
pub fn prepare_note(cfg: &CompleteConfig, lines: &Vec<String>) -> (r: NoteRequest)
    ensures
        r.url@ == notes_url_of(cfg.gl_instance@, cfg.project, cfg.issue),
        r.token@ == cfg.gl_token@,
        r.body@ == note_json(joined(lines_view(lines@))),
{
    NoteRequest {
        url: notes_url(cfg.gl_instance.as_str(), cfg.project, cfg.issue),
        token: cfg.gl_token.clone(),
        body: note_payload_for_lines(lines),
    }
}

/// Judges the tracker's answer to a note request. A failure is final: the
/// request is not repeated.
pub fn send_outcome(status: u16) -> (r: Result<(), SendError>)
    ensures
        r is Ok <==> status_ok(status),
        r is Err ==> r == Err::<(), SendError>(SendError::Rejected { status }),
{
    if is_success(status) {
        Ok(())
    } else {
        Err(SendError::Rejected { status })
    }
}

} // verus!
