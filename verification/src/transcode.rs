//! The transcoder's decisions: whether a persisted file already denotes the
//! target container, which filename a conversion produces, and what the
//! step's outcome is once the encoder's exit status is known. Running the
//! encoder process itself is the driver's work.

use crate::text::chars_to_string;
use crate::text::contains_chars;
use crate::text::contains_seq;
use crate::text::str_to_chars;
use vstd::prelude::*;

verus! {

/// The characters of the `.mp4` extension marker, dot included.
pub open spec fn dot_mp4_marker() -> Seq<char> {
    seq!['.', 'm', 'p', '4']
}

pub(crate) fn dot_mp4_chars() -> (r: Vec<char>)
    ensures
        r@ == dot_mp4_marker(),
{
    let mut r: Vec<char> = Vec::new();
    r.push('.');
    r.push('m');
    r.push('p');
    r.push('4');
    assert(r@ =~= dot_mp4_marker());
    r
}

/// A filename already denotes the target container when it mentions `.mp4`.
pub open spec fn already_mp4(f: Seq<char>) -> bool {
    contains_seq(f, dot_mp4_marker())
}

/// The index of the final `.` in a filename, if it has one.
pub open spec fn last_dot(f: Seq<char>) -> Option<int>
    decreases f.len(),
{
    if f.len() == 0 {
        None
    } else if f[f.len() - 1] == '.' {
        Some(f.len() - 1)
    } else {
        last_dot(f.subrange(0, f.len() - 1))
    }
}

/// The last-dot index lies in the filename and marks a dot.
pub proof fn lemma_last_dot_in_range(f: Seq<char>)
    ensures
        last_dot(f) matches Some(i) ==> 0 <= i < f.len() && f[i] == '.',
    decreases f.len(),
{
    if f.len() > 0 && f[f.len() - 1] != '.' {
        lemma_last_dot_in_range(f.subrange(0, f.len() - 1));
    }
}

/// The filename the converted file takes: its final extension substituted
/// by `mp4`; a filename without an extension gets `.mp4` appended.
pub open spec fn mp4_target(f: Seq<char>) -> Seq<char> {
    match last_dot(f) {
        Some(i) => f.subrange(0, i) + dot_mp4_marker(),
        None => f + dot_mp4_marker(),
    }
}

/// What the transcode step must do for a persisted file.
#[derive(Debug, PartialEq, Eq)]
pub enum TranscodePlan {
    /// The file already denotes an `.mp4`: keep it, run no encoder.
    AlreadyMp4 { filename: String },
    /// Run the external encoder from `source` to `target`.
    Convert { source: String, target: String },
}

/// The conclusion of a successful transcode step.
#[derive(Debug, PartialEq, Eq)]
pub enum TranscodeOutcome {
    /// The file already denoted the target container and is kept as it is.
    Unchanged(String),
    /// The encoder produced the named file; the source file is retired.
    Converted(String),
}

fn rfind_dot(f: &Vec<char>) -> (r: Option<usize>)
    ensures
        match r {
            Some(i) => last_dot(f@) == Some(i as int),
            None => last_dot(f@) is None,
        },
{
    let mut i: usize = f.len();
    proof {
        assert(f@.subrange(0, i as int) =~= f@);
    }
    while i > 0
        invariant
            i <= f@.len(),
            last_dot(f@) == last_dot(f@.subrange(0, i as int)),
        decreases i,
    {
        i -= 1;
        let ghost prefix = f@.subrange(0, i + 1);
        proof {
            assert(prefix[i as int] == f@[i as int]);
            assert(prefix.subrange(0, i as int) =~= f@.subrange(0, i as int));
        }
        if f[i] == '.' {
            proof {
                assert(last_dot(prefix) == Some(i as int));
            }
            return Some(i);
        }
        proof {
            assert(last_dot(prefix) == last_dot(f@.subrange(0, i as int)));
        }
    }
    proof {
        assert(f@.subrange(0, 0).len() == 0);
    }
    None
}

/// Decide the transcode step for a persisted file: none when its name
/// already mentions `.mp4`, otherwise an encoder run into the target named
/// by substituting the file's extension with `mp4`.
pub fn transcode_plan(filename: &str) -> (r: TranscodePlan)
    ensures
        already_mp4(filename@) ==> (r matches TranscodePlan::AlreadyMp4 { filename: f } && f@
            == filename@),
        !already_mp4(filename@) ==> (r matches TranscodePlan::Convert { source, target } && source@
            == filename@ && target@ == mp4_target(filename@)),
{
    let fc = str_to_chars(filename);
    let dot_mp4 = dot_mp4_chars();
    if contains_chars(&fc, &dot_mp4) {
        TranscodePlan::AlreadyMp4 { filename: filename.to_owned() }
    } else {
        let stem_len: usize = match rfind_dot(&fc) {
            Some(i) => {
                proof {
                    lemma_last_dot_in_range(fc@);
                }
                i
            },
            None => fc.len(),
        };
        let mut target: Vec<char> = Vec::new();
        let mut j: usize = 0;
        while j < stem_len
            invariant
                j <= stem_len,
                stem_len <= fc@.len(),
                target@ == fc@.subrange(0, j as int),
            decreases stem_len - j,
        {
            target.push(fc[j]);
            assert(target@ =~= fc@.subrange(0, j + 1));
            j += 1;
        }
        target.push('.');
        target.push('m');
        target.push('p');
        target.push('4');
        proof {
            assert(target@ =~= fc@.subrange(0, stem_len as int) + dot_mp4_marker());
            if last_dot(fc@) is None {
                assert(fc@.subrange(0, stem_len as int) =~= fc@);
            }
        }
        TranscodePlan::Convert { source: filename.to_owned(), target: chars_to_string(&target) }
    }
}

/// The transcode step's conclusion once the encoder has run (or was never
/// needed). `None` is the transcode failure: the encoder exited non-zero,
/// and the source file is to be kept for diagnosis, not deleted.
pub fn conclude_transcode(plan: TranscodePlan, encoder_ok: bool) -> (r: Option<TranscodeOutcome>)
    ensures
        match plan {
            TranscodePlan::AlreadyMp4 { filename } => r matches Some(
                TranscodeOutcome::Unchanged(f),
            ) && f@ == filename@,
            TranscodePlan::Convert { source, target } => {
                &&& encoder_ok ==> (r matches Some(TranscodeOutcome::Converted(f)) && f@
                    == target@)
                &&& !encoder_ok ==> r is None
            },
        },
{
    match plan {
        TranscodePlan::AlreadyMp4 { filename } => Some(TranscodeOutcome::Unchanged(filename)),
        TranscodePlan::Convert { source: _, target } => {
            if encoder_ok {
                Some(TranscodeOutcome::Converted(target))
            } else {
                None
            }
        },
    }
}

} // verus!
