use vstd::prelude::*;
use vstd::string::StringExecFns;

use crate::credentials::KeyPaths;
use crate::error::{ErrorKind, Failure, FailureView};

verus! {

/// Where one node's attempt stands. Each step of the protocol moves it one
/// phase on; a failed step ends it in `Failed`.
#[derive(Clone, Copy, Debug, PartialEq, Eq, Structural)]
pub enum Phase {
    Unconnected,
    Connected,
    Handshaken,
    Authenticated,
    ChannelOpen,
    Executing,
    Drained,
    Closed,
    Failed(ErrorKind),
}

impl Phase {
    pub open spec fn spec_is_terminal(self) -> bool {
        self is Closed || self is Failed
    }

    #[verifier::when_used_as_spec(spec_is_terminal)]
    pub fn is_terminal(self) -> (r: bool)
        ensures
            r == self.spec_is_terminal(),
    {
        match self {
            Phase::Closed | Phase::Failed(_) => true,
            _ => false,
        }
    }
}

/// The phase that follows `p` when its step succeeds.
pub open spec fn successor(p: Phase) -> Phase {
    match p {
        Phase::Unconnected => Phase::Connected,
        Phase::Connected => Phase::Handshaken,
        Phase::Handshaken => Phase::Authenticated,
        Phase::Authenticated => Phase::ChannelOpen,
        Phase::ChannelOpen => Phase::Executing,
        Phase::Executing => Phase::Drained,
        Phase::Drained => Phase::Closed,
        _ => p,
    }
}

/// The kind of failure when the step taken in phase `p` fails.
pub open spec fn failure_kind(p: Phase) -> ErrorKind {
    match p {
        Phase::Unconnected | Phase::Connected => ErrorKind::Transport,
        Phase::Handshaken => ErrorKind::Authentication,
        Phase::Failed(k) => k,
        _ => ErrorKind::Execution,
    }
}

/// The user that every node is logged into.
pub open spec fn remote_user() -> Seq<char> {
    "ubuntu"@
}

/// The address to connect to for a node: the node on the remote-shell port.
pub open spec fn address_of(node: Seq<char>) -> Seq<char> {
    node + ":22"@
}

/// What the caller is to do next for an attempt.
#[derive(Debug)]
pub enum Action {
    /// Open a network connection to `address`.
    Connect { address: String },
    /// Establish the secure session over that connection.
    Handshake,
    /// Authenticate as `user` with the key pair.
    Authenticate { user: String, public_key: String, private_key: String },
    /// Open a command channel on the session.
    OpenChannel,
    /// Request execution of `command` on the channel.
    Exec { command: String },
    /// Read all output until the remote side ends it.
    ReadOutput,
    /// Wait for the channel to close.
    WaitClose,
    /// The attempt is over, with this result.
    Finish(Result<String, Failure>),
}

/// One node's attempt at running one command.
pub struct NodeAttempt {
    pub node: String,
    pub command: String,
    pub keys: KeyPaths,
    pub phase: Phase,
    /// The captured output once it has been read; the cause once failed.
    pub text: String,
}

impl NodeAttempt {
    /// Starts an attempt with the credentials that were resolved for it.
    /// Without credentials the attempt has failed before any connection.
    pub fn new(node: String, command: String, keys: Result<KeyPaths, Failure>) -> (r: NodeAttempt)
        ensures
            r.node@ == node@,
            r.command@ == command@,
            keys is Ok ==> r.phase == Phase::Unconnected,
            keys matches Ok(k) ==> r.keys.public_key@ == k.public_key@ && r.keys.private_key@
                == k.private_key@,
            keys matches Err(e) ==> r.phase == Phase::Failed(e.kind) && r.text@ == e.cause@,
    {
        match keys {
            Ok(k) => NodeAttempt {
                node,
                command,
                keys: k,
                phase: Phase::Unconnected,
                text: String::new(),
            },
            Err(e) => NodeAttempt {
                node,
                command,
                keys: KeyPaths { public_key: String::new(), private_key: String::new() },
                phase: Phase::Failed(e.kind),
                text: e.cause,
            },
        }
    }

    /// The action that the current phase calls for.
    pub fn next_action(&self) -> (r: Action)
        ensures
            self.phase == Phase::Unconnected ==> (r matches Action::Connect { address }
                && address@ == address_of(self.node@)),
            self.phase == Phase::Connected ==> r is Handshake,
            self.phase == Phase::Handshaken ==> (r matches Action::Authenticate {
                user,
                public_key,
                private_key,
            } && user@ == remote_user() && public_key@ == self.keys.public_key@
                && private_key@ == self.keys.private_key@),
            self.phase == Phase::Authenticated ==> r is OpenChannel,
            self.phase == Phase::ChannelOpen ==> (r matches Action::Exec { command }
                && command@ == self.command@),
            self.phase == Phase::Executing ==> r is ReadOutput,
            self.phase == Phase::Drained ==> r is WaitClose,
            self.phase == Phase::Closed ==> (r matches Action::Finish(Ok(out)) && out@
                == self.text@),
            self.phase matches Phase::Failed(k) ==> (r matches Action::Finish(Err(e)) && e@
                == (FailureView { kind: k, cause: self.text@ })),
    {
        match self.phase {
            Phase::Unconnected => {
                proof {
                    reveal_strlit(":22");
                }
                let address = String::from_str(self.node.as_str()).concat(":22");
                Action::Connect { address }
            },
            Phase::Connected => Action::Handshake,
            Phase::Handshaken => Action::Authenticate {
                user: String::from_str("ubuntu"),
                public_key: self.keys.public_key.clone(),
                private_key: self.keys.private_key.clone(),
            },
            Phase::Authenticated => Action::OpenChannel,
            Phase::ChannelOpen => Action::Exec { command: self.command.clone() },
            Phase::Executing => Action::ReadOutput,
            Phase::Drained => Action::WaitClose,
            Phase::Closed => Action::Finish(Ok(self.text.clone())),
            Phase::Failed(k) => Action::Finish(Err(Failure::new(k, self.text.clone()))),
        }
    }

    /// Takes in how the last action went: `Ok` with what it read (only
    /// reading the output reads anything), or `Err` with the cause. A failed
    /// step ends the attempt; a successful one moves it to the next phase.
    pub fn step(&mut self, event: Result<String, String>)
        requires
            !old(self).phase.is_terminal(),
        ensures
            final(self).node@ == old(self).node@,
            final(self).command@ == old(self).command@,
            final(self).keys.public_key@ == old(self).keys.public_key@,
            final(self).keys.private_key@ == old(self).keys.private_key@,
            event matches Err(cause) ==> final(self).phase == Phase::Failed(
                failure_kind(old(self).phase),
            ) && final(self).text@ == cause@,
            event matches Ok(data) ==> final(self).phase == successor(old(self).phase) && (if old(
                self,
            ).phase == Phase::Executing {
                final(self).text@ == data@
            } else {
                final(self).text@ == old(self).text@
            }),
    {
        match event {
            Err(cause) => {
                let kind = match self.phase {
                    Phase::Unconnected | Phase::Connected => ErrorKind::Transport,
                    Phase::Handshaken => ErrorKind::Authentication,
                    _ => ErrorKind::Execution,
                };
                self.phase = Phase::Failed(kind);
                self.text = cause;
            },
            Ok(data) => {
                let next = match self.phase {
                    Phase::Unconnected => Phase::Connected,
                    Phase::Connected => Phase::Handshaken,
                    Phase::Handshaken => Phase::Authenticated,
                    Phase::Authenticated => Phase::ChannelOpen,
                    Phase::ChannelOpen => Phase::Executing,
                    Phase::Executing => {
                        self.text = data;
                        Phase::Drained
                    },
                    _ => Phase::Closed,
                };
                self.phase = next;
            },
        }
    }
}

} // verus!
