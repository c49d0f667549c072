use vstd::prelude::*;
use vstd::string::StringExecFns;

verus! {

/// Protocol of a media buffer that comes in or goes out: RTP or RTCP.
#[derive(Clone, Copy, Debug, PartialEq, Eq, Structural)]
pub enum MediaProtocol {
    Rtp,
    Rtcp,
}

impl MediaProtocol {
    /// The name under which the protocol is shown.
    pub open spec fn label(self) -> Seq<char> {
        match self {
            MediaProtocol::Rtp => "RTP"@,
            MediaProtocol::Rtcp => "RTCP"@,
        }
    }

    /// The protocol's name as text.
    pub fn to_text(&self) -> (text: String)
        ensures
            text@ == self.label(),
    {
        match self {
            MediaProtocol::Rtp => String::from_str("RTP"),
            MediaProtocol::Rtcp => String::from_str("RTCP"),
        }
    }
}

/// Kind of media that a buffer carries: video or audio.
#[derive(Clone, Copy, Debug, PartialEq, Eq, Structural)]
pub enum MediaKind {
    Video,
    Audio,
}

impl MediaKind {
    /// The name under which the kind is shown.
    pub open spec fn label(self) -> Seq<char> {
        match self {
            MediaKind::Video => "videp"@,
            MediaKind::Audio => "audio"@,
        }
    }

    /// The kind's name as text.
    pub fn to_text(&self) -> (text: String)
        ensures
            text@ == self.label(),
    {
        match self {
            MediaKind::Video => String::from_str("videp"),
            MediaKind::Audio => String::from_str("audio"),
        }
    }

    /// The flag by which the host tells video from audio: one for video, zero for audio.
    pub open spec fn video_flag(self) -> i32 {
        match self {
            MediaKind::Video => 1,
            MediaKind::Audio => 0,
        }
    }

    /// The kind that a host flag stands for: zero is audio, every other value video.
    pub open spec fn of_flag(is_video: i32) -> MediaKind {
        if is_video == 0 {
            MediaKind::Audio
        } else {
            MediaKind::Video
        }
    }
}

/// The kind of media behind the host's `is_video` flag.
pub fn media_kind(is_video: i32) -> (kind: MediaKind)
    ensures
        kind == MediaKind::of_flag(is_video),
{
    match is_video {
        0 => MediaKind::Audio,
        _ => MediaKind::Video,
    }
}

/// The host's `is_video` flag for a kind of media.
pub fn video_flag(kind: MediaKind) -> (is_video: i32)
    ensures
        is_video == kind.video_flag(),
{
    match kind {
        MediaKind::Video => 1,
        MediaKind::Audio => 0,
    }
}

/// Something that happened to the media of a session.
#[derive(Debug)]
pub enum MediaEvent<'a> {
    /// The peer connection is set up.
    Setup,
    /// A media buffer came in.
    Media { protocol: MediaProtocol, kind: MediaKind, buffer: &'a [i8] },
    /// A buffer came in over the data channel.
    Data { buffer: &'a [i8] },
    /// The host found the link slow.
    SlowLink { kind: MediaKind, uplink: isize },
    /// The peer connection hung up.
    Hangup,
}

} // verus!
