//! Transfer-integrity logic of the downloader.
//!
//! A whole-body download is accepted only when the number of bytes
//! received equals the value of the response's `Content-Length` header,
//! parsed as a decimal unsigned integer and defaulting to zero when the
//! header is absent or unparseable. A chunked download is modelled as a
//! sequence of read events folded into the destination file's content.

use vstd::prelude::*;

use crate::error::DownloadError;

verus! {

/// Whether `c` is a decimal digit.
pub open spec fn is_dec_digit(c: char) -> bool {
    '0' <= c && c <= '9'
}

/// Numeric value of the digit `c`.
pub open spec fn digit_val(c: char) -> nat {
    (c as nat - '0' as nat) as nat
}

/// Value of `s` read as a decimal numeral, most significant digit first.
pub open spec fn dec_val(s: Seq<char>) -> nat
    decreases s.len(),
{
    if s.len() == 0 {
        0
    } else {
        dec_val(s.drop_last()) * 10 + digit_val(s.last())
    }
}

/// Whether `s` is a decimal numeral that fits in a `u64`: non-empty,
/// digits only, value at most `u64::MAX`.
pub open spec fn is_u64_numeral(s: Seq<char>) -> bool {
    &&& s.len() > 0
    &&& (forall|i: int| 0 <= i < s.len() ==> is_dec_digit(#[trigger] s[i]))
    &&& dec_val(s) <= u64::MAX
}

/// The expected length announced by a `Content-Length` header: the
/// header's decimal value, or zero when the header is absent or does not
/// parse as a `u64`.
pub open spec fn content_length_of(header: Option<Seq<char>>) -> u64 {
    match header {
        Option::None => 0,
        Option::Some(s) => if is_u64_numeral(s) {
            dec_val(s) as u64
        } else {
            0
        },
    }
}

proof fn lemma_dec_val_grows(s: Seq<char>, i: int)
    requires
        0 <= i <= s.len(),
    ensures
        dec_val(s.subrange(0, i)) <= dec_val(s),
    decreases s.len() - i,
{
    if i == s.len() {
        assert(s.subrange(0, i) =~= s);
    } else {
        let t = s.subrange(0, i + 1);
        assert(t.drop_last() =~= s.subrange(0, i));
        assert(dec_val(s.subrange(0, i)) <= dec_val(t));
        lemma_dec_val_grows(s, i + 1);
    }
}

/// Parses a `Content-Length` header value: its decimal `u64` value, or
/// zero when the header is absent, empty, holds a non-digit, or
/// overflows a `u64`.
pub fn parse_content_length(header: Option<&str>) -> (r: u64)
    ensures
        r == content_length_of(match header {
            Option::None => Option::None,
            Option::Some(h) => Option::Some(h@),
        }),
{
    let h = match header {
        Option::None => { return 0; },
        Option::Some(h) => h,
    };
    let n = h.unicode_len();
    if n == 0 {
        return 0;
    }
    let mut acc: u64 = 0;
    let mut i: usize = 0;
    while i < n
        invariant
            header == Option::Some(h),
            0 < n == h@.len(),
            0 <= i <= n,
            forall|j: int| 0 <= j < i ==> is_dec_digit(#[trigger] h@[j]),
            acc == dec_val(h@.subrange(0, i as int)),
        decreases n - i,
    {
        let c = h.get_char(i);
        if c < '0' || c > '9' {
            proof {
                assert(!is_dec_digit(h@[i as int]));
            }
            return 0;
        }
        let d: u64 = (c as u32 as u64) - ('0' as u32 as u64);
        assert(d == digit_val(h@[i as int]));
        proof {
            let s1 = h@.subrange(0, i as int + 1);
            assert(s1.drop_last() =~= h@.subrange(0, i as int));
            assert(s1.last() == h@[i as int]);
        }
        let widened = acc.checked_mul(10);
        let next = match widened {
            Option::Some(m) => m.checked_add(d),
            Option::None => Option::None,
        };
        match next {
            Option::Some(v) => {
                acc = v;
            },
            Option::None => {
                proof {
                    assert(dec_val(h@.subrange(0, i as int + 1)) > u64::MAX);
                    lemma_dec_val_grows(h@, i as int + 1);
                    assert(!is_u64_numeral(h@));
                }
                return 0;
            },
        }
        i = i + 1;
    }
    proof {
        assert(h@.subrange(0, n as int) =~= h@);
    }
    acc
}

/// One read of a response body during a chunked copy: a chunk of bytes,
/// the end of the stream, or a failed read.
pub enum ChunkEvent {
    Data(Vec<u8>),
    End,
    ReadFailed,
}

/// Progress of a chunked copy. `Truncated` marks a copy that stopped on a
/// failed read: the destination holds only the bytes received before the
/// failure, and the transfer must not be reported as complete.
#[derive(Clone, Copy, Debug, PartialEq, Eq, Structural)]
pub enum TransferStatus {
    InProgress,
    Complete,
    Truncated,
}

/// The bytes a chunked copy leaves at its destination for a given
/// sequence of reads: the concatenation of the chunks before the first
/// end-of-stream or read failure.
pub open spec fn chunked_content(events: Seq<ChunkEvent>) -> Seq<u8>
    decreases events.len(),
{
    if events.len() == 0 {
        Seq::empty()
    } else {
        match events[0] {
            ChunkEvent::Data(v) => v@ + chunked_content(events.drop_first()),
            _ => Seq::empty(),
        }
    }
}

/// Where a chunked copy stands after a given sequence of reads.
pub open spec fn chunked_status(events: Seq<ChunkEvent>) -> TransferStatus
    decreases events.len(),
{
    if events.len() == 0 {
        TransferStatus::InProgress
    } else {
        match events[0] {
            ChunkEvent::Data(_) => chunked_status(events.drop_first()),
            ChunkEvent::End => TransferStatus::Complete,
            ChunkEvent::ReadFailed => TransferStatus::Truncated,
        }
    }
}

/// A chunked copy in progress: the bytes accepted so far, in order, and
/// whether the stream has ended or failed. The surrounding application
/// mirrors it while streaming: it feeds each read of the body and appends
/// to the destination file exactly the bytes this model accepts.
pub struct ChunkedTransfer {
    pub data: Vec<u8>,
    pub status: TransferStatus,
}

impl ChunkedTransfer {
    /// Starts a chunked copy with nothing received.
    pub fn begin() -> (t: Self)
        ensures
            t.data@ == Seq::<u8>::empty(),
            t.status is InProgress,
    {
        ChunkedTransfer { data: Vec::new(), status: TransferStatus::InProgress }
    }

    /// True while neither end-of-stream nor a read failure has been fed.
    pub fn in_progress(&self) -> (r: bool)
        ensures
            r == (self.status is InProgress),
    {
        matches!(self.status, TransferStatus::InProgress)
    }

    /// Advances the copy by one read: a chunk is appended to the received
    /// bytes, end-of-stream completes the copy, and a failed read leaves
    /// the bytes as they are and marks the copy truncated.
    pub fn feed(&mut self, event: ChunkEvent)
        requires
            old(self).status is InProgress,
        ensures
            match event {
                ChunkEvent::Data(v) => final(self).data@ == old(self).data@ + v@
                    && final(self).status is InProgress,
                ChunkEvent::End => final(self).data@ == old(self).data@
                    && final(self).status is Complete,
                ChunkEvent::ReadFailed => final(self).data@ == old(self).data@
                    && final(self).status is Truncated,
            },
    {
        match event {
            ChunkEvent::Data(v) => {
                let mut chunk = v;
                self.data.append(&mut chunk);
            },
            ChunkEvent::End => {
                self.status = TransferStatus::Complete;
            },
            ChunkEvent::ReadFailed => {
                self.status = TransferStatus::Truncated;
            },
        }
    }
}

/// Runs a whole chunked copy over a recorded sequence of reads: the
/// result holds exactly the bytes `chunked_content` gives for those
/// reads, and stands in the state `chunked_status` gives.
pub fn assemble_chunks(events: Vec<ChunkEvent>) -> (t: ChunkedTransfer)
    ensures
        t.data@ == chunked_content(events@),
        t.status == chunked_status(events@),
{
    let ghost all = events@;
    let mut rest = events;
    let mut t = ChunkedTransfer::begin();
    while rest.len() > 0 && t.in_progress()
        invariant
            t.status is InProgress ==> chunked_content(all) == t.data@ + chunked_content(rest@)
                && chunked_status(all) == chunked_status(rest@),
            !(t.status is InProgress) ==> t.data@ == chunked_content(all) && t.status
                == chunked_status(all),
        decreases rest.len(),
    {
        let ghost before = rest@;
        let event = rest.remove(0);
        proof {
            assert(rest@ =~= before.drop_first());
        }
        t.feed(event);
        proof {
            if t.status is InProgress {
                assert(t.data@ + chunked_content(rest@) =~= chunked_content(all));
            }
        }
    }
    proof {
        if t.status is InProgress {
            assert(t.data@ =~= chunked_content(all));
        }
    }
    t
}

/// Accepts or rejects a completed whole-body transfer: `Ok` exactly when
/// the received byte count equals the header's announced length, and an
/// integrity error carrying both lengths otherwise.
pub fn check_download_integrity(header: Option<&str>, body_len: u64) -> (r: Result<
    (),
    DownloadError,
>)
    ensures
        r is Ok <==> body_len == content_length_of(match header {
            Option::None => Option::None,
            Option::Some(h) => Option::Some(h@),
        }),
        r matches Err(e) ==> e == (DownloadError::Integrity {
            expected: content_length_of(match header {
                Option::None => Option::None,
                Option::Some(h) => Option::Some(h@),
            }),
            actual: body_len,
        }),
{
    let expected = parse_content_length(header);
    if body_len == expected {
        Ok(())
    } else {
        Err(DownloadError::Integrity { expected, actual: body_len })
    }
}

} // verus!
