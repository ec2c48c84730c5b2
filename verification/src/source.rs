//! Choice of the stream to ask the chunk source for.
//!
//! Of the formats that a video is offered in, the viewer takes the WebM
//! format with a video track that has the lowest bitrate: the picture is
//! scaled down to a character grid anyway.

use vstd::prelude::*;

verus! {

/// One of the formats that a video is offered in.
#[derive(Debug, PartialEq, Eq)]
pub struct StreamFormat {
    /// Tag that names the format to the chunk source.
    pub itag: u64,
    /// The format has a video track.
    pub has_video: bool,
    /// Name of the container, such as `webm` or `mp4`.
    pub container: String,
    /// Bits per second.
    pub bitrate: u64,
}

/// The format can be played: it has a video track in a WebM container.
pub open spec fn is_playable(format: StreamFormat) -> bool {
    format.has_video && format.container@ == "webm"@
}

/// Format `index` is the one to take: it is playable, no playable format has
/// a lower bitrate, and of the playable formats with its bitrate it comes
/// first.
pub open spec fn is_best_format(formats: Seq<StreamFormat>, index: int) -> bool {
    &&& 0 <= index < formats.len()
    &&& is_playable(formats[index])
    &&& forall|j: int|
        0 <= j < formats.len() && is_playable(#[trigger] formats[j]) ==> formats[index].bitrate
            <= formats[j].bitrate
    &&& forall|j: int|
        0 <= j < index && is_playable(#[trigger] formats[j]) ==> formats[index].bitrate
            < formats[j].bitrate
}

/// Tells whether a format can be played.
pub fn playable(format: &StreamFormat) -> (yes: bool)
    ensures
        yes == is_playable(*format),
{
    let webm: String = "webm".to_owned();
    format.has_video && format.container == webm
}

/// Picks the format to stream: the index of the playable format with the
/// lowest bitrate, the first of them if several share it. There is none to
/// pick when no format is playable.
pub fn choose_format(formats: &Vec<StreamFormat>) -> (choice: Option<usize>)
    ensures
        choice.is_none() <==> forall|j: int|
            0 <= j < formats@.len() ==> !is_playable(#[trigger] formats@[j]),
        choice matches Some(index) ==> is_best_format(formats@, index as int),
{
    let mut best: Option<usize> = None;
    let mut i: usize = 0;
    while i < formats.len()
        invariant
            i <= formats@.len(),
            best.is_none() <==> forall|j: int|
                0 <= j < i ==> !is_playable(#[trigger] formats@[j]),
            best matches Some(index) ==> is_best_format(formats@.take(i as int), index as int),
        decreases formats@.len() - i,
    {
        let better: bool = playable(&formats[i]) && match best {
            Some(index) => formats[i].bitrate < formats[index].bitrate,
            None => true,
        };
        if better {
            best = Some(i);
        }
        i += 1;
    }
    assert(formats@.take(i as int) =~= formats@);
    best
}

/// The choice is one: no two formats are both the one to take.
pub proof fn lemma_best_format_is_unique(formats: Seq<StreamFormat>, a: int, b: int)
    requires
        is_best_format(formats, a),
        is_best_format(formats, b),
    ensures
        a == b,
{
}

} // verus!
