//! Audio playback state.
//!
//! The platform's audio stream asks for more data from time to time;
//! [`AudioPlaybackData::next_chunk`] decides what to hand it.

use vstd::prelude::*;
use crate::asset::{Audio, Cached};

verus! {

/// A position to seek to.
#[derive(Clone, Copy, PartialEq, Eq, Structural, Hash, Debug)]
pub enum SeekFrom {
    /// An offset from the start.
    Start(u64),
    /// An offset from the end.
    End(i64),
    /// An offset from the current position.
    Current(i64),
}

/// The position that a seek moves to, with the data's length `len`.
pub open spec fn seek_target(pos: usize, len: usize, target: SeekFrom) -> usize {
    match target {
        SeekFrom::Start(offset) => offset as usize,
        SeekFrom::Current(offset) => (pos as i64 + offset) as usize,
        SeekFrom::End(offset) => (len as i64 + offset) as usize,
    }
}

/// True when the offset arithmetic of a seek stays within `i64`.
pub open spec fn seek_in_range(pos: usize, len: usize, target: SeekFrom) -> bool {
    match target {
        SeekFrom::Start(_) => true,
        SeekFrom::Current(offset) => i64::MIN <= pos as i64 + offset <= i64::MAX,
        SeekFrom::End(offset) => i64::MIN <= len as i64 + offset <= i64::MAX,
    }
}

/// The smaller of two numbers.
pub open spec fn min(a: int, b: int) -> int {
    if a <= b { a } else { b }
}

/// Playback data for an audio player.
pub struct AudioPlaybackData {
    /// Source audio.
    audio: Cached<Audio>,
    /// Current position in the source audio.
    pos: usize,
    /// Whether audio should loop.
    repeat: bool,
    /// Whether audio should be played back.
    paused: bool,
}

impl AudioPlaybackData {
    /// The source audio.
    pub closed spec fn source(&self) -> Audio {
        self.audio.asset()
    }

    /// The source audio's bytes.
    pub closed spec fn samples(&self) -> Seq<u8> {
        self.audio.asset().samples()
    }

    /// The current position in the source audio.
    pub closed spec fn position(&self) -> usize {
        self.pos
    }

    /// Whether the audio loops.
    pub closed spec fn repeating(&self) -> bool {
        self.repeat
    }

    /// Whether playback is paused.
    pub closed spec fn is_paused(&self) -> bool {
        self.paused
    }

    /// Returns paused playback data for some audio, at its start, not
    /// looping.
    pub fn new(audio: Cached<Audio>) -> (r: Self)
        ensures
            r.source() == audio.asset(),
            r.position() == 0,
            !r.repeating(),
            r.is_paused(),
    {
        AudioPlaybackData { audio, pos: 0, repeat: false, paused: true }
    }

    /// Returns true if playback is paused.
    pub fn paused(&self) -> (r: bool)
        ensures
            r == self.is_paused(),
    {
        self.paused
    }

    /// Sets whether playback is paused.
    pub fn set_paused(&mut self, paused: bool)
        ensures
            final(self).is_paused() == paused,
            final(self).repeating() == old(self).repeating(),
            final(self).position() == old(self).position(),
            final(self).source() == old(self).source(),
    {
        self.paused = paused;
    }

    /// Returns true if the audio loops.
    pub fn repeat(&self) -> (r: bool)
        ensures
            r == self.repeating(),
    {
        self.repeat
    }

    /// Sets whether the audio loops.
    pub fn set_repeat(&mut self, repeat: bool)
        ensures
            final(self).repeating() == repeat,
            final(self).is_paused() == old(self).is_paused(),
            final(self).position() == old(self).position(),
            final(self).source() == old(self).source(),
    {
        self.repeat = repeat;
    }

    /// Sets the source audio, keeping the position.
    pub fn set_audio(&mut self, audio: Cached<Audio>)
        ensures
            final(self).source() == audio.asset(),
            final(self).repeating() == old(self).repeating(),
            final(self).is_paused() == old(self).is_paused(),
            final(self).position() == old(self).position(),
    {
        self.audio = audio;
    }

    /// Returns the source audio.
    pub fn audio(&self) -> (r: &Cached<Audio>)
        ensures
            r.asset() == self.source(),
    {
        &self.audio
    }

    /// Returns the current position in the source audio.
    pub fn pos(&self) -> (r: usize)
        ensures
            r == self.position(),
    {
        self.pos
    }

    /// Copies audio from the current position into `buf`, as much as fits
    /// and remains, and moves past it. Returns the number of bytes copied.
    pub fn read(&mut self, buf: &mut [u8]) -> (n: usize)
        requires
            old(self).position() <= old(self).samples().len(),
        ensures
            n == min(old(buf)@.len() as int, old(self).samples().len() - old(self).position()),
            final(buf)@ == old(self).samples().subrange(old(self).position() as int, old(self).position() + n)
                + old(buf)@.subrange(n as int, old(buf)@.len() as int),
            final(self).position() == old(self).position() + n,
            final(self).source() == old(self).source(),
            final(self).repeating() == old(self).repeating(),
            final(self).is_paused() == old(self).is_paused(),
    {
        let data = self.audio.get().data();
        let dlen = data.len();
        let remaining = dlen - self.pos;
        let n = if buf.len() <= remaining { buf.len() } else { remaining };
        let ghost start = self.pos as int;
        let ghost before = buf@;
        let mut i: usize = 0;
        while i < n
            invariant
                i <= n,
                n <= buf@.len(),
                start + n <= data@.len(),
                dlen == data@.len(),
                start == self.pos,
                buf@.len() == before.len(),
                forall|j: int| 0 <= j < i ==> buf@[j] == data@[start + j],
                forall|j: int| n <= j < buf@.len() ==> buf@[j] == before[j],
            decreases n - i,
        {
            buf[i] = data[self.pos + i];
            i = i + 1;
        }
        proof {
            assert(buf@ =~= data@.subrange(start, start + n) + before.subrange(n as int, before.len() as int));
        }
        self.pos = self.pos + n;
        n
    }

    /// Moves the current position, and returns the new position.
    pub fn seek(&mut self, target: SeekFrom) -> (r: u64)
        requires
            seek_in_range(old(self).position(), old(self).samples().len() as usize, target),
        ensures
            final(self).position() == seek_target(old(self).position(), old(self).samples().len() as usize, target),
            r == final(self).position() as u64,
            final(self).source() == old(self).source(),
            final(self).repeating() == old(self).repeating(),
            final(self).is_paused() == old(self).is_paused(),
    {
        let len = self.audio.get().data().len();
        self.pos = match target {
            SeekFrom::Start(offset) => offset as usize,
            SeekFrom::Current(offset) => (self.pos as i64 + offset) as usize,
            SeekFrom::End(offset) => (len as i64 + offset) as usize,
        };
        self.pos as u64
    }

    /// Decides what to hand the audio stream when it asks for
    /// `additional_amount` more bytes.
    ///
    /// Paused playback hands nothing. Otherwise, before the last byte, hands
    /// as much as asked for and remains, and moves past it; at or past the
    /// last byte, hands nothing and, when looping, goes back to the start.
    pub fn next_chunk(&mut self, additional_amount: usize) -> (r: Option<Vec<u8>>)
        requires
            old(self).samples().len() > 0,
        ensures
            final(self).source() == old(self).source(),
            final(self).repeating() == old(self).repeating(),
            final(self).is_paused() == old(self).is_paused(),
            ({
                let pos = old(self).position() as int;
                let len = old(self).samples().len() as int;
                if old(self).is_paused() {
                    r is None && final(self).position() == pos
                } else if pos < len - 1 {
                    let n = min(additional_amount as int, len - pos);
                    &&& r matches Some(chunk) && chunk@ == old(self).samples().subrange(pos, pos + n)
                    &&& final(self).position() == pos + n
                } else if old(self).repeating() {
                    r is None && final(self).position() == 0
                } else {
                    r is None && final(self).position() == pos
                }
            }),
    {
        if self.paused {
            return None;
        }
        let len = self.audio.get().data().len();
        if self.pos < len - 1 {
            let mut buf: Vec<u8> = vec![0; additional_amount];
            let n = self.read(buf.as_mut_slice());
            buf.truncate(n);
            Some(buf)
        } else {
            if self.repeat {
                self.pos = 0;
            }
            None
        }
    }
}

/// Reading `a` bytes and then `b` bytes moves as far as reading `a + b`
/// bytes at once, and hands out the same bytes, in order.
pub proof fn lemma_reads_compose(samples: Seq<u8>, pos: int, a: int, b: int)
    requires
        0 <= pos <= samples.len(),
        a >= 0,
        b >= 0,
    ensures
        ({
            let n1 = min(a, samples.len() - pos);
            let n2 = min(b, samples.len() - (pos + n1));
            &&& n1 + n2 == min(a + b, samples.len() - pos)
            &&& samples.subrange(pos, pos + n1) + samples.subrange(pos + n1, pos + n1 + n2) == samples.subrange(
                pos,
                pos + n1 + n2,
            )
        }),
{
    let n1 = min(a, samples.len() - pos);
    let n2 = min(b, samples.len() - (pos + n1));
    assert(samples.subrange(pos, pos + n1) + samples.subrange(pos + n1, pos + n1 + n2) =~= samples.subrange(
        pos,
        pos + n1 + n2,
    ));
}

} // verus!
