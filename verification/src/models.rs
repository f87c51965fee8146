//! The platform-neutral description of a resolved item.

use vstd::prelude::*;

verus! {

/// Who published an item.
#[derive(Debug, Clone, PartialEq, Eq)]
pub struct Author {
    pub uid: String,
    pub name: String,
    pub avatar: String,
}

/// One image of a gallery, with the motion photo that belongs to it.
#[derive(Debug, Clone, PartialEq, Eq)]
pub struct ImgInfo {
    pub url: String,
    pub live_photo_url: Option<String>,
}

/// One alternate quality of a video.
#[derive(Debug, Clone, PartialEq, Eq)]
pub struct VideoQuality {
    pub quality: String,
    pub video_url: String,
    pub size: Option<u64>,
}

/// Counters of an item.
#[derive(Debug, Clone, Copy, PartialEq, Eq)]
pub struct VideoStatistics {
    pub likes: Option<u64>,
    pub views: Option<u64>,
    pub favorites: Option<u64>,
    pub shares: Option<u64>,
    pub comments: Option<u64>,
}

/// The music of an item.
#[derive(Debug, Clone, PartialEq, Eq)]
pub struct MusicInfo {
    pub title: String,
    pub author: String,
    pub url: String,
    pub cover_url: String,
}

/// The canonical record of one resolved item: a video post, a gallery post
/// or a text post.
#[derive(Debug, Clone, PartialEq, Eq)]
pub struct VideoParseInfo {
    pub author: Author,
    pub title: String,
    pub video_url: String,
    pub music_url: String,
    pub cover_url: String,
    pub images: Vec<ImgInfo>,
    pub platform: String,
    pub video_qualities: Vec<VideoQuality>,
    pub statistics: Option<VideoStatistics>,
    pub tags: Option<Vec<String>>,
    pub music_info: Option<MusicInfo>,
    pub create_time: Option<u64>,
}

/// One entry of a publisher's list of posts.
#[derive(Debug, Clone, PartialEq, Eq)]
pub struct VideoPreview {
    pub id: String,
    pub title: String,
    pub cover_url: String,
    pub video_url: String,
    pub is_video: bool,
    pub platform: String,
}

pub struct AuthorView {
    pub uid: Seq<char>,
    pub name: Seq<char>,
    pub avatar: Seq<char>,
}

pub struct ImgInfoView {
    pub url: Seq<char>,
    pub live_photo_url: Option<Seq<char>>,
}

pub struct VideoQualityView {
    pub quality: Seq<char>,
    pub video_url: Seq<char>,
    pub size: Option<u64>,
}

pub struct MusicInfoView {
    pub title: Seq<char>,
    pub author: Seq<char>,
    pub url: Seq<char>,
    pub cover_url: Seq<char>,
}

pub struct VideoParseInfoView {
    pub author: AuthorView,
    pub title: Seq<char>,
    pub video_url: Seq<char>,
    pub music_url: Seq<char>,
    pub cover_url: Seq<char>,
    pub images: Seq<ImgInfoView>,
    pub platform: Seq<char>,
    pub video_qualities: Seq<VideoQualityView>,
    pub statistics: Option<VideoStatistics>,
    pub tags: Option<Seq<Seq<char>>>,
    pub music_info: Option<MusicInfoView>,
    pub create_time: Option<u64>,
}

pub struct VideoPreviewView {
    pub id: Seq<char>,
    pub title: Seq<char>,
    pub cover_url: Seq<char>,
    pub video_url: Seq<char>,
    pub is_video: bool,
    pub platform: Seq<char>,
}

/// An optional string as an optional text.
pub open spec fn text_view(o: Option<String>) -> Option<Seq<char>> {
    match o {
        Some(s) => Some(s@),
        None => None,
    }
}

impl View for Author {
    type V = AuthorView;

    open spec fn view(&self) -> AuthorView {
        AuthorView { uid: self.uid@, name: self.name@, avatar: self.avatar@ }
    }
}

impl View for ImgInfo {
    type V = ImgInfoView;

    open spec fn view(&self) -> ImgInfoView {
        ImgInfoView { url: self.url@, live_photo_url: text_view(self.live_photo_url) }
    }
}

impl View for VideoQuality {
    type V = VideoQualityView;

    open spec fn view(&self) -> VideoQualityView {
        VideoQualityView { quality: self.quality@, video_url: self.video_url@, size: self.size }
    }
}

impl View for MusicInfo {
    type V = MusicInfoView;

    open spec fn view(&self) -> MusicInfoView {
        MusicInfoView {
            title: self.title@,
            author: self.author@,
            url: self.url@,
            cover_url: self.cover_url@,
        }
    }
}

impl View for VideoPreview {
    type V = VideoPreviewView;

    open spec fn view(&self) -> VideoPreviewView {
        VideoPreviewView {
            id: self.id@,
            title: self.title@,
            cover_url: self.cover_url@,
            video_url: self.video_url@,
            is_video: self.is_video,
            platform: self.platform@,
        }
    }
}

/// The views of a list of images.
pub open spec fn images_view(images: Seq<ImgInfo>) -> Seq<ImgInfoView> {
    Seq::new(images.len(), |i: int| images[i]@)
}

/// The views of a list of qualities.
pub open spec fn qualities_view(qualities: Seq<VideoQuality>) -> Seq<VideoQualityView> {
    Seq::new(qualities.len(), |i: int| qualities[i]@)
}

/// The views of a list of previews.
pub open spec fn previews_view(previews: Seq<VideoPreview>) -> Seq<VideoPreviewView> {
    Seq::new(previews.len(), |i: int| previews[i]@)
}

/// The texts of a list of strings.
pub open spec fn texts_view(texts: Seq<String>) -> Seq<Seq<char>> {
    Seq::new(texts.len(), |i: int| texts[i]@)
}

impl View for VideoParseInfo {
    type V = VideoParseInfoView;

    open spec fn view(&self) -> VideoParseInfoView {
        VideoParseInfoView {
            author: self.author@,
            title: self.title@,
            video_url: self.video_url@,
            music_url: self.music_url@,
            cover_url: self.cover_url@,
            images: images_view(self.images@),
            platform: self.platform@,
            video_qualities: qualities_view(self.video_qualities@),
            statistics: self.statistics,
            tags: match self.tags {
                Some(tags) => Some(texts_view(tags@)),
                None => None,
            },
            music_info: match self.music_info {
                Some(m) => Some(m@),
                None => None,
            },
            create_time: self.create_time,
        }
    }
}

impl VideoParseInfoView {
    /// A record is a gallery or a video, never both: where it has images it
    /// has neither a primary video link nor alternate qualities.
    pub open spec fn is_exclusive(self) -> bool {
        self.images.len() > 0 ==> self.video_url.len() == 0 && self.video_qualities.len() == 0
    }

    /// The record made exclusive: where it has images, the primary video
    /// link and the alternate qualities are emptied.
    pub open spec fn normalized(self) -> VideoParseInfoView {
        if self.images.len() > 0 {
            VideoParseInfoView {
                video_url: Seq::empty(),
                video_qualities: Seq::empty(),
                ..self
            }
        } else {
            self
        }
    }

    /// A record with the given fields, no music, no qualities and none of
    /// the optional parts.
    pub open spec fn plain(
        author: AuthorView,
        title: Seq<char>,
        video_url: Seq<char>,
        cover_url: Seq<char>,
        images: Seq<ImgInfoView>,
        platform: Seq<char>,
    ) -> VideoParseInfoView {
        VideoParseInfoView {
            author,
            title,
            video_url,
            music_url: Seq::empty(),
            cover_url,
            images,
            platform,
            video_qualities: Seq::empty(),
            statistics: None,
            tags: None,
            music_info: None,
            create_time: None,
        }
    }
}

impl VideoParseInfo {
    /// Makes the record exclusive.
    pub fn normalize(self) -> (r: VideoParseInfo)
        ensures
            r@ == self@.normalized(),
            r@.is_exclusive(),
    {
        if self.images.len() > 0 {
            let r = VideoParseInfo {
                video_url: String::new(),
                video_qualities: Vec::new(),
                ..self
            };
            assert(r@.video_qualities =~= Seq::empty());
            r
        } else {
            self
        }
    }

    /// A record with the given fields, no music, no qualities and none of
    /// the optional parts.
    pub(crate) fn plain(
        author: Author,
        title: String,
        video_url: String,
        cover_url: String,
        images: Vec<ImgInfo>,
        platform: &str,
    ) -> (r: VideoParseInfo)
        ensures
            r@ == VideoParseInfoView::plain(
                author@,
                title@,
                video_url@,
                cover_url@,
                images_view(images@),
                platform@,
            ),
    {
        let r = VideoParseInfo {
            author,
            title,
            video_url,
            music_url: String::new(),
            cover_url,
            images,
            platform: platform.to_owned(),
            video_qualities: Vec::new(),
            statistics: None,
            tags: None,
            music_info: None,
            create_time: None,
        };
        assert(r@.video_qualities =~= Seq::empty());
        r
    }
}

pub proof fn lemma_images_view_push(images: Seq<ImgInfo>, image: ImgInfo)
    ensures
        images_view(images.push(image)) == images_view(images).push(image@),
{
}

pub proof fn lemma_qualities_view_push(qualities: Seq<VideoQuality>, quality: VideoQuality)
    ensures
        qualities_view(qualities.push(quality)) == qualities_view(qualities).push(quality@),
{
}

pub proof fn lemma_previews_view_push(previews: Seq<VideoPreview>, preview: VideoPreview)
    ensures
        previews_view(previews.push(preview)) == previews_view(previews).push(preview@),
{
}

/// Normalizing a record makes it exclusive, and an exclusive record is left
/// as it is.
pub proof fn lemma_normalized_is_exclusive(record: VideoParseInfoView)
    ensures
        record.normalized().is_exclusive(),
        record.is_exclusive() ==> record.normalized() == record,
{
    if record.images.len() > 0 && record.is_exclusive() {
        assert(record.video_url =~= Seq::empty());
        assert(record.video_qualities =~= Seq::empty());
    }
}

} // verus!
