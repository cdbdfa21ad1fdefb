//! The five one-bit marks that a cell keeps about its transport.

use vstd::prelude::*;

verus! {

/// Which of the five marks are set.
pub struct FlagSet {
    /// The cell has been started. No operation of a cell sets or reads this mark.
    pub started: bool,
    /// The transport is to be closed once everything buffered has been sent.
    pub closing: bool,
    /// Nothing more is read from the transport.
    pub stream_closed: bool,
    /// Nothing more is written to the transport.
    pub sink_closed: bool,
    /// Everything that was handed to the transport has been flushed.
    pub sink_flushed: bool,
}

impl FlagSet {
    /// No mark at all.
    pub open spec fn none() -> FlagSet {
        FlagSet {
            started: false,
            closing: false,
            stream_closed: false,
            sink_closed: false,
            sink_flushed: false,
        }
    }

    /// The marks that are set here or in `other`.
    pub open spec fn union(self, other: FlagSet) -> FlagSet {
        FlagSet {
            started: self.started || other.started,
            closing: self.closing || other.closing,
            stream_closed: self.stream_closed || other.stream_closed,
            sink_closed: self.sink_closed || other.sink_closed,
            sink_flushed: self.sink_flushed || other.sink_flushed,
        }
    }

    /// The marks that are set here and not in `other`.
    pub open spec fn difference(self, other: FlagSet) -> FlagSet {
        FlagSet {
            started: self.started && !other.started,
            closing: self.closing && !other.closing,
            stream_closed: self.stream_closed && !other.stream_closed,
            sink_closed: self.sink_closed && !other.sink_closed,
            sink_flushed: self.sink_flushed && !other.sink_flushed,
        }
    }

    /// Whether every mark of `other` is set here.
    pub open spec fn includes(self, other: FlagSet) -> bool {
        self.union(other) == self
    }
}

const STARTED: u8 = 0b0000_0001;

const CLOSING: u8 = 0b0000_0010;

const STREAM_CLOSED: u8 = 0b0000_0100;

const SINK_CLOSED: u8 = 0b0000_1000;

const SINK_FLUSHED: u8 = 0b0001_0000;

/// The marks that the bits of a byte stand for.
pub closed spec fn marks(bits: u8) -> FlagSet {
    FlagSet {
        started: bits & STARTED != 0,
        closing: bits & CLOSING != 0,
        stream_closed: bits & STREAM_CLOSED != 0,
        sink_closed: bits & SINK_CLOSED != 0,
        sink_flushed: bits & SINK_FLUSHED != 0,
    }
}

/// A set of marks, one bit each.
#[derive(Clone, Copy, Debug)]
pub struct FramedFlags {
    bits: u8,
}

impl View for FramedFlags {
    type V = FlagSet;

    closed spec fn view(&self) -> FlagSet {
        marks(self.bits)
    }
}

impl FramedFlags {
    /// The mark that the cell has been started.
    pub fn started() -> (r: FramedFlags)
        ensures
            r@ == (FlagSet { started: true, ..FlagSet::none() }),
    {
        proof {
            lemma_single_marks();
        }
        FramedFlags { bits: STARTED }
    }

    /// The mark that the transport is being closed.
    pub fn closing() -> (r: FramedFlags)
        ensures
            r@ == (FlagSet { closing: true, ..FlagSet::none() }),
    {
        proof {
            lemma_single_marks();
        }
        FramedFlags { bits: CLOSING }
    }

    /// The mark that reading has ended.
    pub fn stream_closed() -> (r: FramedFlags)
        ensures
            r@ == (FlagSet { stream_closed: true, ..FlagSet::none() }),
    {
        proof {
            lemma_single_marks();
        }
        FramedFlags { bits: STREAM_CLOSED }
    }

    /// The mark that writing has ended.
    pub fn sink_closed() -> (r: FramedFlags)
        ensures
            r@ == (FlagSet { sink_closed: true, ..FlagSet::none() }),
    {
        proof {
            lemma_single_marks();
        }
        FramedFlags { bits: SINK_CLOSED }
    }

    /// The mark that nothing is left to flush.
    pub fn sink_flushed() -> (r: FramedFlags)
        ensures
            r@ == (FlagSet { sink_flushed: true, ..FlagSet::none() }),
    {
        proof {
            lemma_single_marks();
        }
        FramedFlags { bits: SINK_FLUSHED }
    }

    /// The marks that are in `self` or in `other`.
    pub fn union(self, other: FramedFlags) -> (r: FramedFlags)
        ensures
            r@ == self@.union(other@),
    {
        proof {
            use_type_invariant(self);
            use_type_invariant(other);
        }
        let a: u8 = self.bits;
        let b: u8 = other.bits;
        assert(a <= 0b0001_1111 && b <= 0b0001_1111 ==> a | b <= 0b0001_1111) by (bit_vector);
        assert(forall|m: u8| #[trigger] ((a | b) & m) != 0 <==> (a & m) != 0 || (b & m) != 0)
            by (bit_vector);
        FramedFlags { bits: a | b }
    }

    /// Sets the marks of `other`.
    pub fn insert(&mut self, other: FramedFlags)
        ensures
            final(self)@ == old(self)@.union(other@),
    {
        *self = self.union(other);
    }

    /// Clears the marks of `other`.
    pub fn remove(&mut self, other: FramedFlags)
        ensures
            final(self)@ == old(self)@.difference(other@),
    {
        proof {
            use_type_invariant(&*self);
        }
        let a: u8 = self.bits;
        let b: u8 = other.bits;
        assert(a & !b <= a) by (bit_vector);
        assert((a & !b) & STARTED != 0 <==> a & STARTED != 0 && b & STARTED == 0) by (bit_vector);
        assert((a & !b) & CLOSING != 0 <==> a & CLOSING != 0 && b & CLOSING == 0) by (bit_vector);
        assert((a & !b) & STREAM_CLOSED != 0 <==> a & STREAM_CLOSED != 0 && b & STREAM_CLOSED == 0)
            by (bit_vector);
        assert((a & !b) & SINK_CLOSED != 0 <==> a & SINK_CLOSED != 0 && b & SINK_CLOSED == 0)
            by (bit_vector);
        assert((a & !b) & SINK_FLUSHED != 0 <==> a & SINK_FLUSHED != 0 && b & SINK_FLUSHED == 0)
            by (bit_vector);
        self.bits = a & !b;
    }

    /// Whether all the marks of `other` are set.
    pub fn contains(&self, other: FramedFlags) -> (r: bool)
        ensures
            r == self@.includes(other@),
    {
        proof {
            use_type_invariant(self);
            use_type_invariant(&other);
        }
        let a: u8 = self.bits;
        let b: u8 = other.bits;
        assert(b <= 0b0001_1111 ==> (a & b == b <==> {
            &&& b & STARTED != 0 ==> a & STARTED != 0
            &&& b & CLOSING != 0 ==> a & CLOSING != 0
            &&& b & STREAM_CLOSED != 0 ==> a & STREAM_CLOSED != 0
            &&& b & SINK_CLOSED != 0 ==> a & SINK_CLOSED != 0
            &&& b & SINK_FLUSHED != 0 ==> a & SINK_FLUSHED != 0
        })) by (bit_vector);
        a & b == b
    }

    /// Only the five bits that stand for a mark are ever set.
    #[verifier::type_invariant]
    closed spec fn only_marks(self) -> bool {
        self.bits <= 0b0001_1111
    }
}

proof fn lemma_single_marks()
    ensures
        marks(STARTED) == (FlagSet { started: true, ..FlagSet::none() }),
        marks(CLOSING) == (FlagSet { closing: true, ..FlagSet::none() }),
        marks(STREAM_CLOSED) == (FlagSet { stream_closed: true, ..FlagSet::none() }),
        marks(SINK_CLOSED) == (FlagSet { sink_closed: true, ..FlagSet::none() }),
        marks(SINK_FLUSHED) == (FlagSet { sink_flushed: true, ..FlagSet::none() }),
{
    assert(forall|a: u8, b: u8|
        (a == 1 || a == 2 || a == 4 || a == 8 || a == 16) && (b == 1 || b == 2 || b == 4 || b == 8
            || b == 16) ==> (#[trigger] (a & b) != 0 <==> a == b)) by (bit_vector);
}

} // verus!
