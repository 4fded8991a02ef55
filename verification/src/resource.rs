//! The owning entity of one request: a state machine that walks the stages
//! rewrite, fetch, persist, transcode, tracks which local file the resource
//! owns, and guarantees that release retires that file exactly once. The
//! driver performs the returned actions (the GET, the file write, the
//! encoder run, the deletions) and reports each result back.

use crate::fetch::derive_filename;
use crate::fetch::derived_filename;
use crate::rewrite::handle_message;
use crate::rewrite::rewritten_link;
use crate::rewrite::RewriteError;
use crate::transcode::already_mp4;
use crate::transcode::mp4_target;
use crate::transcode::transcode_plan;
use crate::transcode::TranscodePlan;
use vstd::prelude::*;

verus! {

/// The stage a pipeline failure happened in.
#[derive(Debug, Clone, Copy, PartialEq, Eq, Structural)]
pub enum Stage {
    Rewriting,
    Fetching,
    Persisting,
    Transcoding,
}

/// Why the pipeline failed.
#[derive(Debug, Clone, Copy, PartialEq, Eq, Structural)]
pub enum PipelineError {
    /// The message could not be rewritten to a canonical URL.
    Rewrite(RewriteError),
    /// The HTTP GET failed: no connection, bad status, or unreadable body.
    Network,
    /// The fetched bytes could not be written to the local file.
    Persist,
    /// The encoder could not be started or exited non-zero.
    Transcode,
}

impl PipelineError {
    /// The failure's account, as characters: a rewrite failure speaks with
    /// its own cause's words.
    pub open spec fn message_spec(self) -> Seq<char> {
        match self {
            PipelineError::Rewrite(e) => e.message_spec(),
            PipelineError::Network => "Problem while getting the video"@,
            PipelineError::Persist => "Unable to save the video to disk"@,
            PipelineError::Transcode => "Unable to decode webm to mp4"@,
        }
    }

    /// A short account of the failure, for the caller's report to the user.
    pub fn message(&self) -> (r: &'static str)
        ensures
            r@ == self.message_spec(),
    {
        match self {
            PipelineError::Rewrite(e) => e.message(),
            PipelineError::Network => "Problem while getting the video",
            PipelineError::Persist => "Unable to save the video to disk",
            PipelineError::Transcode => "Unable to decode webm to mp4",
        }
    }
}

/// The phase a resource is in.
#[derive(Debug, Clone, Copy, PartialEq, Eq, Structural)]
pub enum Phase {
    /// Waiting for the driver to perform the HTTP GET.
    Fetching,
    /// Waiting for the driver to write the fetched bytes to disk.
    Persisting,
    /// Waiting for the driver to run the external encoder.
    Transcoding,
    /// The final local file is ready for upload.
    Ready,
    /// A stage failed; the resource may still own a file to clean up.
    Failed,
    /// The resource is over and owns no file.
    Released,
}

/// What the driver must do next on behalf of the resource.
#[derive(Debug, PartialEq, Eq)]
pub enum Action {
    /// Issue the HTTP GET against the canonical URL.
    Fetch { url: String },
    /// Write the fetched bytes to the named local file.
    Persist { filename: String },
    /// Run the external encoder from `source` to `target`.
    Encode { source: String, target: String },
    /// Best-effort deletion of the named local file.
    Delete { filename: String },
    /// Nothing to do.
    Idle,
}

enum State {
    Fetching { url: String },
    Persisting { filename: String },
    Transcoding { source: String, target: String },
    Ready { filename: String },
    Failed { stage: Stage, error: PipelineError, file: Option<String> },
    Released,
}

/// The owner of one request's downloaded file, from the first stage to the
/// release of the local file.
pub struct VideoResource {
    state: State,
}

impl VideoResource {
    /// The phase the resource is in.
    pub closed spec fn phase(&self) -> Phase {
        match self.state {
            State::Fetching { .. } => Phase::Fetching,
            State::Persisting { .. } => Phase::Persisting,
            State::Transcoding { .. } => Phase::Transcoding,
            State::Ready { .. } => Phase::Ready,
            State::Failed { .. } => Phase::Failed,
            State::Released => Phase::Released,
        }
    }

    /// The local file the resource owns on disk, if any. It is owned from
    /// the moment the persist stage succeeds until release.
    pub closed spec fn owned_file(&self) -> Option<Seq<char>> {
        match self.state {
            State::Transcoding { source, .. } => Some(source@),
            State::Ready { filename } => Some(filename@),
            State::Failed { file: Some(f), .. } => Some(f@),
            _ => None,
        }
    }

    /// The canonical URL awaiting its GET.
    pub closed spec fn canonical_url(&self) -> Option<Seq<char>> {
        match self.state {
            State::Fetching { url } => Some(url@),
            _ => None,
        }
    }

    /// The local filename awaiting its bytes.
    pub closed spec fn persist_filename(&self) -> Option<Seq<char>> {
        match self.state {
            State::Persisting { filename } => Some(filename@),
            _ => None,
        }
    }

    /// The filename the running conversion writes.
    pub closed spec fn encode_target(&self) -> Option<Seq<char>> {
        match self.state {
            State::Transcoding { target, .. } => Some(target@),
            _ => None,
        }
    }

    /// The final local filename, present exactly in the ready phase.
    pub closed spec fn final_filename(&self) -> Option<Seq<char>> {
        match self.state {
            State::Ready { filename } => Some(filename@),
            _ => None,
        }
    }

    /// The recorded failure, present exactly in the failed phase.
    pub closed spec fn failure(&self) -> Option<PipelineError> {
        match self.state {
            State::Failed { error, .. } => Some(error),
            _ => None,
        }
    }

    /// The stage the recorded failure happened in.
    pub closed spec fn failed_stage(&self) -> Option<Stage> {
        match self.state {
            State::Failed { stage, .. } => Some(stage),
            _ => None,
        }
    }

    /// Begin one request: the rewriting stage runs at once. On success the
    /// resource awaits the GET against the canonical URL; on failure it is
    /// failed with the rewrite's error and owns no file.
    pub fn start(message: &str) -> (r: (VideoResource, Action))
        ensures
            match rewritten_link(message@) {
                Ok(u) => {
                    &&& r.0.phase() is Fetching
                    &&& r.0.canonical_url() == Some(u)
                    &&& r.0.owned_file() is None
                    &&& r.1 matches Action::Fetch { url }
                    &&& url@ == u
                },
                Err(e) => {
                    &&& r.0.phase() is Failed
                    &&& r.0.failed_stage() == Some(Stage::Rewriting)
                    &&& r.0.failure() == Some(PipelineError::Rewrite(e))
                    &&& r.0.owned_file() is None
                    &&& r.1 is Idle
                },
            },
    {
        match handle_message(message) {
            Ok(link) => {
                let action = Action::Fetch { url: link.clone() };
                (VideoResource { state: State::Fetching { url: link } }, action)
            },
            Err(e) => (
                VideoResource {
                    state: State::Failed {
                        stage: Stage::Rewriting,
                        error: PipelineError::Rewrite(e),
                        file: None,
                    },
                },
                Action::Idle,
            ),
        }
    }

    /// Record the GET's outcome: the URL the server resolved to, or nothing
    /// on a network failure. On success the resource awaits the write of
    /// the body under the filename derived from the resolved URL.
    pub fn on_fetched(&mut self, resolved_url: Option<&str>) -> (a: Action)
        requires
            old(self).phase() is Fetching,
        ensures
            match resolved_url {
                Some(ru) => {
                    &&& final(self).phase() is Persisting
                    &&& final(self).persist_filename() == Some(derived_filename(ru@))
                    &&& final(self).owned_file() is None
                    &&& a matches Action::Persist { filename }
                    &&& filename@ == derived_filename(ru@)
                },
                None => {
                    &&& final(self).phase() is Failed
                    &&& final(self).failed_stage() == Some(Stage::Fetching)
                    &&& final(self).failure() == Some(PipelineError::Network)
                    &&& final(self).owned_file() is None
                    &&& a is Idle
                },
            },
    {
        match resolved_url {
            Some(ru) => {
                let filename = derive_filename(ru);
                let action = Action::Persist { filename: filename.clone() };
                self.state = State::Persisting { filename };
                action
            },
            None => {
                self.state = State::Failed {
                    stage: Stage::Fetching,
                    error: PipelineError::Network,
                    file: None,
                };
                Action::Idle
            },
        }
    }

    /// Record the persist stage's outcome. From the moment it succeeds the
    /// resource owns the written file; the transcode step is then decided:
    /// a file already denoting `.mp4` is ready at once, any other awaits
    /// the encoder run.
    pub fn on_persisted(&mut self, ok: bool) -> (a: Action)
        requires
            old(self).phase() is Persisting,
        ensures
            ({
                &&& old(self).persist_filename() matches Some(f)
                &&& !ok ==> ({
                    &&& final(self).phase() is Failed
                    &&& final(self).failed_stage() == Some(Stage::Persisting)
                    &&& final(self).failure() == Some(PipelineError::Persist)
                    &&& final(self).owned_file() is None
                    &&& a is Idle
                })
                &&& (ok && already_mp4(f)) ==> ({
                    &&& final(self).phase() is Ready
                    &&& final(self).final_filename() == Some(f)
                    &&& final(self).owned_file() == Some(f)
                    &&& a is Idle
                })
                &&& (ok && !already_mp4(f)) ==> ({
                    &&& final(self).phase() is Transcoding
                    &&& final(self).owned_file() == Some(f)
                    &&& final(self).encode_target() == Some(mp4_target(f))
                    &&& a matches Action::Encode { source, target }
                    &&& source@ == f
                    &&& target@ == mp4_target(f)
                })
            }),
    {
        let filename: String = match &self.state {
            State::Persisting { filename } => filename.clone(),
            _ => {
                proof {
                    assert(false);
                }
                String::new()
            },
        };
        if !ok {
            self.state = State::Failed {
                stage: Stage::Persisting,
                error: PipelineError::Persist,
                file: None,
            };
            Action::Idle
        } else {
            match transcode_plan(filename.as_str()) {
                TranscodePlan::AlreadyMp4 { filename } => {
                    self.state = State::Ready { filename };
                    Action::Idle
                },
                TranscodePlan::Convert { source, target } => {
                    let action = Action::Encode {
                        source: source.clone(),
                        target: target.clone(),
                    };
                    self.state = State::Transcoding { source, target };
                    action
                },
            }
        }
    }

    /// Record the encoder's exit status. Success makes the conversion
    /// target the final file and retires the source file; failure keeps the
    /// source file on disk for diagnosis, still owned for eventual cleanup.
    pub fn on_encoded(&mut self, exit_ok: bool) -> (a: Action)
        requires
            old(self).phase() is Transcoding,
        ensures
            exit_ok ==> ({
                &&& final(self).phase() is Ready
                &&& final(self).final_filename() == old(self).encode_target()
                &&& final(self).owned_file() == old(self).encode_target()
                &&& old(self).owned_file() matches Some(src)
                &&& a matches Action::Delete { filename }
                &&& filename@ == src
            }),
            !exit_ok ==> ({
                &&& final(self).phase() is Failed
                &&& final(self).failed_stage() == Some(Stage::Transcoding)
                &&& final(self).failure() == Some(PipelineError::Transcode)
                &&& final(self).owned_file() == old(self).owned_file()
                &&& a is Idle
            }),
    {
        let (source, target): (String, String) = match &self.state {
            State::Transcoding { source, target } => (source.clone(), target.clone()),
            _ => {
                proof {
                    assert(false);
                }
                (String::new(), String::new())
            },
        };
        if exit_ok {
            self.state = State::Ready { filename: target };
            Action::Delete { filename: source }
        } else {
            self.state = State::Failed {
                stage: Stage::Transcoding,
                error: PipelineError::Transcode,
                file: Some(source),
            };
            Action::Idle
        }
    }

    /// Release the resource: reachable exactly from the ready and failed
    /// phases, entered once. Afterwards the resource owns no file, and the
    /// returned action deletes the owned file if and only if there was one.
    pub fn release(&mut self) -> (a: Action)
        requires
            old(self).phase() is Ready || old(self).phase() is Failed,
        ensures
            final(self).phase() is Released,
            final(self).owned_file() is None,
            match old(self).owned_file() {
                Some(f) => {
                    &&& a matches Action::Delete { filename }
                    &&& filename@ == f
                },
                None => a is Idle,
            },
    {
        let owned: Option<String> = match &self.state {
            State::Ready { filename } => Some(filename.clone()),
            State::Failed { file: Some(f), .. } => Some(f.clone()),
            State::Failed { file: None, .. } => None,
            _ => {
                proof {
                    assert(false);
                }
                None
            },
        };
        self.state = State::Released;
        match owned {
            Some(f) => Action::Delete { filename: f },
            None => Action::Idle,
        }
    }

    /// The phase, for the driver's control flow.
    pub fn current_phase(&self) -> (r: Phase)
        ensures
            r == self.phase(),
    {
        match &self.state {
            State::Fetching { .. } => Phase::Fetching,
            State::Persisting { .. } => Phase::Persisting,
            State::Transcoding { .. } => Phase::Transcoding,
            State::Ready { .. } => Phase::Ready,
            State::Failed { .. } => Phase::Failed,
            State::Released => Phase::Released,
        }
    }

    /// The final local filename, for the upload.
    pub fn filename(&self) -> (r: String)
        requires
            self.phase() is Ready,
        ensures
            Some(r@) == self.final_filename(),
    {
        match &self.state {
            State::Ready { filename } => filename.clone(),
            _ => {
                proof {
                    assert(false);
                }
                String::new()
            },
        }
    }

    /// The recorded failure, for the driver's report to the user.
    pub fn current_failure(&self) -> (r: Option<PipelineError>)
        ensures
            r == self.failure(),
    {
        match &self.state {
            State::Failed { error, .. } => Some(*error),
            _ => None,
        }
    }

}

} // verus!
