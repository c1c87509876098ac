//! The PlaybackInfo response model and the choice of the media source a
//! stream request is routed to.
use vstd::prelude::*;

use crate::text::{chars_of, trim, trim_str};

verus! {

/// One media source of a PlaybackInfo response (the fields the library
/// reads and passes on; the per-stream details stay with the caller).
#[derive(Debug, PartialEq)]
pub struct MediaSource {
    pub protocol: Option<String>,
    pub id: Option<String>,
    pub path: Option<String>,
    pub e_tag: Option<String>,
    pub type_field: Option<String>,
    pub container: Option<String>,
    pub size: Option<i64>,
    pub name: Option<String>,
    pub is_remote: Option<bool>,
    pub has_mixed_protocols: Option<bool>,
    pub run_time_ticks: Option<i64>,
    pub supports_transcoding: Option<bool>,
    pub supports_direct_stream: Option<bool>,
    pub supports_direct_play: Option<bool>,
    pub is_infinite_stream: Option<bool>,
    pub requires_opening: Option<bool>,
    pub requires_closing: Option<bool>,
    pub requires_looping: Option<bool>,
    pub supports_probing: Option<bool>,
    pub formats: Vec<String>,
    pub bitrate: Option<i64>,
    pub add_api_key_to_direct_stream_url: Option<bool>,
    pub direct_stream_url: Option<String>,
    pub transcoding_url: Option<String>,
    pub transcoding_sub_protocol: Option<String>,
    pub transcoding_container: Option<String>,
    pub read_at_native_framerate: Option<bool>,
    pub default_audio_stream_index: Option<i32>,
    pub default_subtitle_stream_index: Option<i32>,
    pub item_id: Option<String>,
}

impl Default for MediaSource {
    fn default() -> (r: Self)
        ensures
            r.protocol is None,
            r.id is None,
            r.path is None,
            r.e_tag is None,
            r.type_field is None,
            r.container is None,
            r.size is None,
            r.name is None,
            r.is_remote is None,
            r.has_mixed_protocols is None,
            r.run_time_ticks is None,
            r.supports_transcoding is None,
            r.supports_direct_stream is None,
            r.supports_direct_play is None,
            r.is_infinite_stream is None,
            r.requires_opening is None,
            r.requires_closing is None,
            r.requires_looping is None,
            r.supports_probing is None,
            r.bitrate is None,
            r.add_api_key_to_direct_stream_url is None,
            r.direct_stream_url is None,
            r.transcoding_url is None,
            r.transcoding_sub_protocol is None,
            r.transcoding_container is None,
            r.read_at_native_framerate is None,
            r.default_audio_stream_index is None,
            r.default_subtitle_stream_index is None,
            r.item_id is None,
            r.formats@.len() == 0,
    {
        MediaSource {
            protocol: None,
            id: None,
            path: None,
            e_tag: None,
            type_field: None,
            container: None,
            size: None,
            name: None,
            is_remote: None,
            has_mixed_protocols: None,
            run_time_ticks: None,
            supports_transcoding: None,
            supports_direct_stream: None,
            supports_direct_play: None,
            is_infinite_stream: None,
            requires_opening: None,
            requires_closing: None,
            requires_looping: None,
            supports_probing: None,
            formats: Vec::new(),
            bitrate: None,
            add_api_key_to_direct_stream_url: None,
            direct_stream_url: None,
            transcoding_url: None,
            transcoding_sub_protocol: None,
            transcoding_container: None,
            read_at_native_framerate: None,
            default_audio_stream_index: None,
            default_subtitle_stream_index: None,
            item_id: None,
        }
    }
}

/// A PlaybackInfo response.
#[derive(Debug, PartialEq)]
pub struct PlaybackInfo {
    pub media_sources: Vec<MediaSource>,
    pub play_session_id: Option<String>,
}

impl Default for PlaybackInfo {
    fn default() -> (r: Self)
        ensures
            r.media_sources@.len() == 0,
            r.play_session_id is None,
    {
        PlaybackInfo { media_sources: Vec::new(), play_session_id: None }
    }
}

/// The source's id is exactly `target`.
pub open spec fn has_id(source: MediaSource, target: Seq<char>) -> bool {
    source.id matches Some(x) && x@ == target
}

/// `i` is the first source whose id is `target`.
pub open spec fn first_with_id(sources: Seq<MediaSource>, target: Seq<char>, i: int) -> bool {
    &&& 0 <= i < sources.len()
    &&& has_id(sources[i], target)
    &&& forall|k: int| 0 <= k < i ==> !has_id(#[trigger] sources[k], target)
}

/// No source has id `target`.
pub open spec fn none_with_id(sources: Seq<MediaSource>, target: Seq<char>) -> bool {
    forall|k: int| 0 <= k < sources.len() ==> !has_id(#[trigger] sources[k], target)
}

/// The index of the first source whose id is `target`.
fn find_index_by_id(sources: &Vec<MediaSource>, target: &str) -> (r: Option<usize>)
    ensures
        match r {
            Some(i) => first_with_id(sources@, target@, i as int),
            None => none_with_id(sources@, target@),
        },
{
    let tc = chars_of(target);
    let mut i: usize = 0;
    while i < sources.len()
        invariant
            i <= sources.len(),
            tc@ == target@,
            forall|k: int| 0 <= k < i ==> !has_id(#[trigger] sources@[k], target@),
        decreases sources.len() - i,
    {
        let hit = match &sources[i].id {
            Some(x) => crate::playback_service::seq_eq(&chars_of(x.as_str()), &tc),
            None => false,
        };
        if hit {
            return Some(i);
        }
        i = i + 1;
    }
    None
}

impl PlaybackInfo {
    /// The path of the first media source whose id is `target_id`; none when
    /// no source has that id or that source has no path.
    pub fn find_media_source_path_by_id(&self, target_id: &str) -> (r: Option<&str>)
        ensures
            match r {
                Some(p) => exists|i: int| #[trigger]
                    first_with_id(self.media_sources@, target_id@, i) && (
                    self.media_sources@[i].path matches Some(q) && q@ == p@),
                None => none_with_id(self.media_sources@, target_id@) || exists|i: int|
                    #[trigger] first_with_id(self.media_sources@, target_id@, i)
                        && self.media_sources@[i].path is None,
            },
    {
        match find_index_by_id(&self.media_sources, target_id) {
            Some(i) => {
                assert(first_with_id(self.media_sources@, target_id@, i as int));
                match &self.media_sources[i].path {
                    Some(p) => Some(p.as_str()),
                    None => None,
                }
            },
            None => None,
        }
    }

    /// The media source a stream request is routed to. With a media source
    /// id (blank counts as absent) it is the first source with exactly that
    /// id; without one it is the only source, and none when there are
    /// several or none.
    pub fn select_media_source(&self, media_source_id: Option<&str>) -> (r: Option<&MediaSource>)
        ensures
            match media_source_id {
                Some(m) if trim(m@).len() > 0 => match r {
                    Some(s) => exists|i: int| #[trigger]
                        first_with_id(self.media_sources@, trim(m@), i) && *s
                            == self.media_sources@[i],
                    None => none_with_id(self.media_sources@, trim(m@)),
                },
                _ => if self.media_sources@.len() == 1 {
                    r == Some(&self.media_sources@[0])
                } else {
                    r is None
                },
            },
    {
        let target = match media_source_id {
            Some(m) => {
                let t = trim_str(m);
                if t.as_str().is_empty() {
                    None
                } else {
                    Some(t)
                }
            },
            None => None,
        };
        match target {
            Some(t) => match find_index_by_id(&self.media_sources, t.as_str()) {
                Some(i) => {
                    assert(first_with_id(self.media_sources@, t@, i as int));
                    Some(&self.media_sources[i])
                },
                None => None,
            },
            None => {
                if self.media_sources.len() == 1 {
                    Some(&self.media_sources[0])
                } else {
                    None
                }
            },
        }
    }
}

} // verus!
