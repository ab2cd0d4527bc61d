//! The beat messages that the Mixxx DJ software stores for its tracks.
use vstd::prelude::*;

verus! {

/// Where a beat or a tempo came from.
#[derive(Clone, Copy, Debug, PartialEq, Eq, Structural)]
pub enum Source {
    Analyzer,
    FileMetadata,
    User,
}

impl Source {
    /// The number that stands for the source in a message.
    pub open spec fn number(self) -> i32 {
        match self {
            Source::Analyzer => 0,
            Source::FileMetadata => 1,
            Source::User => 2,
        }
    }

    pub fn to_i32(&self) -> (n: i32)
        ensures
            n == self.number(),
    {
        match self {
            Source::Analyzer => 0,
            Source::FileMetadata => 1,
            Source::User => 2,
        }
    }

    /// The source that a number stands for, if any.
    pub fn from_i32(n: i32) -> (s: Option<Source>)
        ensures
            match s {
                Some(src) => src.number() == n,
                None => n < 0 || n > 2,
            },
    {
        if n == 0 {
            Some(Source::Analyzer)
        } else if n == 1 {
            Some(Source::FileMetadata)
        } else if n == 2 {
            Some(Source::User)
        } else {
            None
        }
    }
}

/// One beat of a beat map.  Fields that a message leaves out are
/// `None`.
#[derive(Clone, Copy, Debug, PartialEq, Eq, Structural)]
pub struct Beat {
    pub frame_position: Option<i32>,
    pub enabled: Option<bool>,
    pub source: Option<i32>,
}

impl Beat {
    /// Whether the beat is enabled; beats are enabled unless a message
    /// says otherwise.
    pub fn enabled(&self) -> (e: bool)
        ensures
            e == match self.enabled {
                Some(b) => b,
                None => true,
            },
    {
        match self.enabled {
            Some(b) => b,
            None => true,
        }
    }

    /// The source of the beat; the analyzer, unless a message names a
    /// known source.
    pub fn source(&self) -> (s: Source)
        ensures
            s == match self.source {
                Some(n) => if n == 1 {
                    Source::FileMetadata
                } else if n == 2 {
                    Source::User
                } else {
                    Source::Analyzer
                },
                None => Source::Analyzer,
            },
    {
        match self.source {
            Some(n) => match Source::from_i32(n) {
                Some(src) => src,
                None => Source::Analyzer,
            },
            None => Source::Analyzer,
        }
    }
}

/// A beat map: every beat of a track.
pub struct BeatMap {
    pub beat: Vec<Beat>,
}

} // verus!
