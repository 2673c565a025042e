//! The codec check for MP4 files: every video track must be H.264.
use vstd::prelude::*;
use crate::media::{Media, MediaError};
use crate::mp4_boxes::{mp4_boxes_ok, mp4_boxes_valid};
use vstd::multiset::Multiset;

verus! {

/// A track of an MP4 file, as far as the codec check reads it.
pub struct Mp4Track {
    /// Whether the track is a video track, or the reader's error for its
    /// handler type.
    pub is_video: Result<bool, String>,
    /// The name of the track's media type (`h264`, `h265`, `vp9`, `aac` or
    /// `ttxt`), or the reader's error.
    pub media_type: Result<String, String>,
}

/// What a track holds, as plain values.
pub type Mp4TrackView = (Result<bool, Seq<char>>, Result<Seq<char>, Seq<char>>);

impl View for Mp4Track {
    type V = Mp4TrackView;

    open spec fn view(&self) -> Mp4TrackView {
        (
            match self.is_video {
                Ok(b) => Ok(b),
                Err(e) => Err(e@),
            },
            match self.media_type {
                Ok(m) => Ok(m@),
                Err(e) => Err(e@),
            },
        )
    }
}

/// The views of a sequence of tracks.
pub open spec fn tracks_view(v: Seq<Mp4Track>) -> Seq<Mp4TrackView> {
    v.map_values(|t: Mp4Track| t@)
}

/// What `mp4::Mp4Reader::read_header` makes of a file's bytes: the tracks
/// it finds, or its error message. The tracks are a multiset: the reader
/// keeps them in a hash map, whose walk has no fixed order.
pub uninterp spec fn mp4_read(bytes: Seq<u8>) -> Result<Multiset<Mp4TrackView>, Seq<char>>;

/// Calls `mp4::Mp4Reader::read_header` on the bytes of a file, and for each
/// track `Mp4Track::track_type` and `Mp4Track::media_type`. The tracks come
/// back in the order of the reader's hash map, which is not stated; their
/// multiset, and the error, are tied to the bytes by the name `mp4_read`.
/// A media type's name is `h264` exactly for H.264, as the crate's source
/// spells the names. The reader panics or loops forever on some box sizes;
/// the bytes must have the box structure of `mp4_boxes_ok`, under which
/// every size it computes stays in range and every loop over child boxes
/// moves forward.
#[verifier::external_body]
fn read_mp4_tracks(bytes: &[u8]) -> (r: Result<Vec<Mp4Track>, String>)
    requires
        mp4_boxes_ok(bytes@),
    ensures
        match mp4_read(bytes@) {
            Ok(tracks) => r matches Ok(v) && tracks_view(v@).to_multiset() == tracks,
            Err(e) => r matches Err(m) && m@ == e,
        },
{
    let mp4 = mp4::Mp4Reader::read_header(std::io::Cursor::new(bytes), bytes.len() as u64)
        .map_err(|e| e.to_string())?;
    Ok(mp4.tracks().values().map(|t| Mp4Track {
        is_video: t.track_type().map(|k| matches!(k, mp4::TrackType::Video)).map_err(|e| e.to_string()),
        media_type: t.media_type().map(|m| m.to_string()).map_err(|e| e.to_string()),
    }).collect())
}

/// Whether a track passes the codec check: its handler type reads, and a
/// video track's media type reads and is H.264.
pub open spec fn track_ok(t: Mp4TrackView) -> bool {
    match t.0 {
        Err(_) => false,
        Ok(false) => true,
        Ok(true) => t.1 == Ok::<Seq<char>, Seq<char>>("h264"@),
    }
}

/// Whether `e` is the error that the check gives for a failing track.
pub open spec fn track_error(t: Mp4TrackView, e: MediaError) -> bool {
    match t.0 {
        Err(m) => e matches MediaError::Mp4(x) && x@ == m,
        Ok(_) => match t.1 {
            Err(m) => e matches MediaError::Mp4(x) && x@ == m,
            Ok(name) => e matches MediaError::UnsupportedVideoCodec(x) && x@ == name,
        },
    }
}

/// The message of the error for a file whose boxes the reader cannot be
/// given.
pub open spec fn box_structure_message() -> Seq<char> {
    "unsupported MP4 box structure"@
}

impl Media {
    /// Checks tracks in the order given: the first track that fails decides
    /// the error.
    pub fn check_mp4_tracks(tracks: &Vec<Mp4Track>) -> (r: Result<(), MediaError>)
        ensures
            r is Ok <==> forall|i: int| 0 <= i < tracks@.len() ==> track_ok(#[trigger] tracks@[i]@),
            r matches Err(e) ==> exists|i: int|
                0 <= i < tracks@.len() && !track_ok(#[trigger] tracks@[i]@) && track_error(tracks@[i]@, e),
    {
        let mut i: usize = 0;
        while i < tracks.len()
            invariant
                i <= tracks.len(),
                forall|k: int| 0 <= k < i ==> track_ok(#[trigger] tracks@[k]@),
            decreases tracks.len() - i,
        {
            let t = &tracks[i];
            assert(t@ == tracks@[i as int]@);
            match &t.is_video {
                Err(e) => {
                    let err = MediaError::Mp4(e.clone());
                    assert(!track_ok(tracks@[i as int]@) && track_error(tracks@[i as int]@, err));
                    return Err(err);
                },
                Ok(false) => {},
                Ok(true) => match &t.media_type {
                    Err(e) => {
                        let err = MediaError::Mp4(e.clone());
                        assert(!track_ok(tracks@[i as int]@) && track_error(tracks@[i as int]@, err));
                        return Err(err);
                    },
                    Ok(name) => {
                        if !crate::text::str_eq(name.as_str(), "h264") {
                            let err = MediaError::UnsupportedVideoCodec(name.clone());
                            assert(!track_ok(tracks@[i as int]@) && track_error(tracks@[i as int]@, err));
                            return Err(err);
                        }
                    },
                },
            }
            i = i + 1;
        }
        Ok(())
    }

    /// Checks an MP4 file's bytes: every video track must be coded with
    /// H.264. A file on which the reader would panic or loop forever, one
    /// whose boxes fail `mp4_boxes_ok`, is refused before the reader sees
    /// it; 64-bit box sizes and a last box of size 0 go to the reader like
    /// any other box. Success does not
    /// depend on the order in which the reader hands out the tracks; which
    /// failing track names the error does.
    pub fn check_mp4_codec(bytes: &[u8]) -> (r: Result<(), MediaError>)
        ensures
            !mp4_boxes_ok(bytes@) ==> (r matches Err(MediaError::Mp4(x)) && x@ == box_structure_message()),
            mp4_boxes_ok(bytes@) ==> match mp4_read(bytes@) {
                Err(m) => r matches Err(MediaError::Mp4(x)) && x@ == m,
                Ok(tracks) => {
                    &&& (r is Ok <==> forall|t: Mp4TrackView| tracks.count(t) > 0 ==> track_ok(t))
                    &&& (r matches Err(e) ==> exists|t: Mp4TrackView|
                        tracks.count(t) > 0 && !track_ok(t) && track_error(t, e))
                },
            },
    {
        if !mp4_boxes_valid(bytes) {
            return Err(MediaError::Mp4(String::from_str("unsupported MP4 box structure")));
        }
        let tracks = match read_mp4_tracks(bytes) {
            Ok(tracks) => tracks,
            Err(m) => {
                return Err(MediaError::Mp4(m));
            },
        };
        let r = Media::check_mp4_tracks(&tracks);
        proof {
            broadcast use vstd::seq_lib::group_to_multiset_ensures;
            let s = tracks_view(tracks@);
            assert forall|t: Mp4TrackView| s.to_multiset().count(t) > 0 <==> s.contains(t) by {}
            if r is Ok {
                assert forall|t: Mp4TrackView| s.to_multiset().count(t) > 0 implies track_ok(t) by {
                    let i = choose|i: int| 0 <= i < s.len() && s[i] == t;
                    assert(track_ok(tracks@[i]@));
                }
            } else {
                let i = choose|i: int|
                    0 <= i < tracks@.len() && !track_ok(#[trigger] tracks@[i]@) && track_error(tracks@[i]@, r->Err_0);
                assert(s[i] == tracks@[i]@);
                assert(s.to_multiset().count(s[i]) > 0);
            }
        }
        r
    }
}

} // verus!
