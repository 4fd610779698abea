//! Logging levels.
use vstd::prelude::*;

verus! {

/// Importance of the logged message to the host application admin.
#[derive(Copy, Clone, Debug, PartialEq, Eq, PartialOrd, Ord, Hash)]
pub enum ImportanceLevel {
    /// Debugging information. Not normally logged.
    Debug,
    /// General information. Seen and logged by default.
    Normal,
    /// Information logged and seen in "quiet" mode.
    Critical,
}

/// Quantity of messages expected under normal conditions.
#[derive(Copy, Clone, Debug, PartialEq, Eq, PartialOrd, Ord, Hash)]
pub enum FrequencyLevel {
    /// Many times in transaction lifetime.
    Operation,
    /// Once or twice in transaction lifetime.
    Xaction,
    /// Occurs just a few times in application lifetime.
    Application,
}

/// Message length in normal conditions.
#[derive(Copy, Clone, Debug, PartialEq, Eq, PartialOrd, Ord, Hash)]
pub enum MessageSizeLevel {
    /// Regular log line, under about 120 characters.
    Normal,
    /// Data dumps mostly.
    Large,
}

impl ImportanceLevel {
    /// The level's bits in a verbosity mask: the lowest four.
    pub open spec fn spec_bits(self) -> usize {
        match self {
            ImportanceLevel::Debug => 0,
            ImportanceLevel::Normal => 1,
            ImportanceLevel::Critical => 2,
        }
    }

    #[verifier::when_used_as_spec(spec_bits)]
    pub fn bits(self) -> (r: usize)
        ensures
            r == self.spec_bits(),
    {
        match self {
            ImportanceLevel::Debug => 0,
            ImportanceLevel::Normal => 1,
            ImportanceLevel::Critical => 2,
        }
    }
}

impl FrequencyLevel {
    /// The level's bits in a verbosity mask: the second four.
    pub open spec fn spec_bits(self) -> usize {
        match self {
            FrequencyLevel::Operation => 0,
            FrequencyLevel::Xaction => 16,
            FrequencyLevel::Application => 32,
        }
    }

    #[verifier::when_used_as_spec(spec_bits)]
    pub fn bits(self) -> (r: usize)
        ensures
            r == self.spec_bits(),
    {
        match self {
            FrequencyLevel::Operation => 0,
            FrequencyLevel::Xaction => 16,
            FrequencyLevel::Application => 32,
        }
    }
}

impl MessageSizeLevel {
    /// The level's bit in a verbosity mask: the ninth.
    pub open spec fn spec_bits(self) -> usize {
        match self {
            MessageSizeLevel::Normal => 0,
            MessageSizeLevel::Large => 256,
        }
    }

    #[verifier::when_used_as_spec(spec_bits)]
    pub fn bits(self) -> (r: usize)
        ensures
            r == self.spec_bits(),
    {
        match self {
            MessageSizeLevel::Normal => 0,
            MessageSizeLevel::Large => 256,
        }
    }
}

/// How much a debug stream should carry.
#[derive(Copy, Clone, Debug, PartialEq, Eq, PartialOrd, Ord, Hash)]
pub struct LogVerbosity {
    pub importance: ImportanceLevel,
    pub frequency: FrequencyLevel,
    pub size: MessageSizeLevel,
}

impl LogVerbosity {
    /// The mask that stands for a verbosity: the three levels side by
    /// side, which is their sum since no two share a bit.
    pub open spec fn spec_mask(&self) -> usize {
        (self.importance.spec_bits() + self.frequency.spec_bits() + self.size.spec_bits()) as usize
    }

    /// Critical messages of any frequency, of normal size.
    pub fn new() -> (v: LogVerbosity)
        ensures
            v.importance == ImportanceLevel::Critical,
            v.frequency == FrequencyLevel::Operation,
            v.size == MessageSizeLevel::Normal,
            v.spec_mask() == 2,
    {
        LogVerbosity {
            importance: ImportanceLevel::Critical,
            frequency: FrequencyLevel::Operation,
            size: MessageSizeLevel::Normal,
        }
    }

    /// The verbosity in the host's layout.
    pub fn raw(self) -> (r: crate::sys::LogVerbosity)
        ensures
            r.0 == self.spec_mask(),
    {
        crate::sys::LogVerbosity(self.mask())
    }

    /// The verbosity as one number, as hosts take it.
    #[verifier::when_used_as_spec(spec_mask)]
    pub fn mask(&self) -> (r: usize)
        ensures
            r == self.spec_mask(),
            r == self.importance.spec_bits() | self.frequency.spec_bits() | self.size.spec_bits(),
    {
        let i: usize = self.importance.bits();
        let f: usize = self.frequency.bits();
        let s: usize = self.size.bits();
        assert((i | f | s) == i + f + s) by (bit_vector)
            requires
                i <= 2,
                f == 0 || f == 16 || f == 32,
                s == 0 || s == 256,
        ;
        i | f | s
    }
}

/// A stream that the host opened for debugging output.
pub trait DebugStream {
    /// What was written so far.
    spec fn written(&self) -> Seq<char>;

    fn write_str(&mut self, s: &str)
        ensures
            final(self).written() == old(self).written() + s@,
    ;
}

} // verus!
