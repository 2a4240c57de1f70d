//! What a session writes to the child: lines, control characters, and the
//! bookkeeping of a write that the stream takes in pieces.

use vstd::prelude::*;
use vstd::slice::{slice_subrange, slice_to_vec};
use crate::control_code::{code_byte, ControlCode};
use crate::error::{failure_view, Cause, CauseView, Error, ErrorView};

verus! {

/// The kind of terminal that the child is attached to.
#[derive(Debug, Clone, Copy, PartialEq, Eq, Structural)]
pub enum Platform {
    /// A pseudo-terminal of a Unix system.
    Unix,
    /// A pseudo-console of Windows.
    Windows,
}

/// The bytes that end a line on a platform: a carriage return on Unix, a
/// carriage return and a line feed on Windows.
pub open spec fn line_terminator(platform: Platform) -> Seq<u8> {
    match platform {
        Platform::Unix => seq![0x0Du8],
        Platform::Windows => seq![0x0Du8, 0x0Au8],
    }
}

/// The bytes to write for the line `text`: the text, then the line
/// terminator of the platform.
pub fn line_bytes(text: &[u8], platform: Platform) -> (framed: Vec<u8>)
    ensures
        framed@ == text@ + line_terminator(platform),
{
    let mut framed = slice_to_vec(text);
    framed.push(0x0D);
    match platform {
        Platform::Unix => {},
        Platform::Windows => {
            framed.push(0x0A);
        },
    }
    framed
}

/// The bytes to write for a control character: its one byte.
pub fn control_bytes(code: ControlCode) -> (bytes: Vec<u8>)
    ensures
        bytes@ == seq![code_byte(code)],
{
    let mut bytes = Vec::new();
    bytes.push(code.byte());
    bytes
}

/// What one write to the stream gave.
#[derive(Debug, PartialEq, Eq)]
pub enum WriteOutcome {
    /// The stream took this many bytes.
    Wrote(usize),
    /// The stream takes nothing at the moment.
    WouldBlock,
    /// The write failed.
    Failed(Cause),
}

/// Bytes on their way to the child, of which the stream has taken a part.
#[derive(Debug)]
pub struct Outgoing {
    bytes: Vec<u8>,
    sent: usize,
}

/// The text of the failure of a stream that takes no byte of a write.
pub open spec fn write_zero_note() -> Seq<char> {
    "failed to write whole buffer"@
}

/// How many bytes have been taken after a write that gave `outcome`, with
/// `sent` of `total` taken before: what the stream says it took, and never
/// more than there is.
pub open spec fn sent_after(total: nat, sent: nat, outcome: WriteOutcome) -> nat {
    match outcome {
        WriteOutcome::Wrote(n) => if sent + n > total {
            total
        } else {
            sent + n as nat
        },
        _ => sent,
    }
}

/// The failure, if any, with which a write that gave `outcome` ends the
/// sending, with `sent` of `total` bytes taken before: a failed write does,
/// and so does a stream that takes nothing of bytes that are left.
pub open spec fn write_refusal(total: nat, sent: nat, outcome: WriteOutcome) -> Option<ErrorView> {
    match outcome {
        WriteOutcome::Wrote(n) => if n == 0 && sent < total {
            Some(ErrorView::Io(CauseView { code: None, message: write_zero_note() }))
        } else {
            None
        },
        WriteOutcome::WouldBlock => None,
        WriteOutcome::Failed(cause) => Some(ErrorView::Io(cause@)),
    }
}

impl Outgoing {
    /// All the bytes to send.
    pub closed spec fn all(&self) -> Seq<u8> {
        self.bytes@
    }

    /// How many of the bytes the stream has taken.
    pub closed spec fn taken(&self) -> nat {
        self.sent as nat
    }

    /// The bytes that the stream has not taken yet.
    pub open spec fn left(&self) -> Seq<u8> {
        self.all().subrange(self.taken() as int, self.all().len() as int)
    }

    #[verifier::type_invariant]
    spec fn wf(self) -> bool {
        self.sent <= self.bytes@.len()
    }

    /// The sending of `bytes`, of which nothing has been taken yet.
    pub fn new(bytes: Vec<u8>) -> (outgoing: Outgoing)
        ensures
            outgoing.all() == bytes@,
            outgoing.taken() == 0,
    {
        Outgoing { bytes, sent: 0 }
    }

    /// The bytes to hand to the next write.
    pub fn pending(&self) -> (bytes: &[u8])
        ensures
            self.taken() <= self.all().len(),
            bytes@ == self.left(),
    {
        proof {
            use_type_invariant(self);
        }
        slice_subrange(self.bytes.as_slice(), self.sent, self.bytes.len())
    }

    /// Whether the stream has taken every byte.
    pub fn is_done(&self) -> (done: bool)
        ensures
            self.taken() <= self.all().len(),
            done == (self.taken() == self.all().len()),
    {
        proof {
            use_type_invariant(self);
        }
        self.sent == self.bytes.len()
    }

    /// Takes in what a write of the pending bytes gave, and says whether the
    /// sending has failed by it.
    pub fn wrote(&mut self, outcome: WriteOutcome) -> (failure: Option<Error>)
        ensures
            final(self).all() == old(self).all(),
            old(self).taken() <= old(self).all().len(),
            final(self).taken() == sent_after(old(self).all().len(), old(self).taken(), outcome),
            failure_view(failure) == write_refusal(
                old(self).all().len(),
                old(self).taken(),
                outcome,
            ),
    {
        proof {
            use_type_invariant(&*self);
        }
        match outcome {
            WriteOutcome::Wrote(n) => {
                let left = self.bytes.len() - self.sent;
                if n == 0 && left > 0 {
                    Some(Error::Io(Cause::new(None, "failed to write whole buffer")))
                } else {
                    if n > left {
                        self.sent = self.bytes.len();
                    } else {
                        self.sent = self.sent + n;
                    }
                    None
                }
            },
            WriteOutcome::WouldBlock => None,
            WriteOutcome::Failed(cause) => Some(Error::Io(cause)),
        }
    }
}

/// While bytes are sent, those taken and those left are, in this order, the
/// bytes to send: a write in pieces loses nothing and repeats nothing.
pub proof fn lemma_sending_keeps_order(all: Seq<u8>, sent: nat, outcome: WriteOutcome)
    requires
        sent <= all.len(),
    ensures
        sent <= sent_after(all.len(), sent, outcome) <= all.len(),
        all.subrange(0, sent as int) + all.subrange(sent as int, all.len() as int) == all,
        all.subrange(0, sent_after(all.len(), sent, outcome) as int) == all.subrange(0, sent as int)
            + all.subrange(sent as int, sent_after(all.len(), sent, outcome) as int),
{
    let next = sent_after(all.len(), sent, outcome);
    assert(all.subrange(0, sent as int) + all.subrange(sent as int, all.len() as int) =~= all);
    assert(all.subrange(0, next as int) =~= all.subrange(0, sent as int) + all.subrange(
        sent as int,
        next as int,
    ));
}

} // verus!
