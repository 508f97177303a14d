//! The data that the service's replies carry, as plain records.

use vstd::prelude::*;

pub mod web;

verus! {

/// The token of a login on the web.
#[derive(Default, Debug, Clone, PartialEq)]
pub struct WebToken {
    pub dedeuserid: i64,
    pub dedeuserid_ckmd5: String,
    pub sessdata: String,
    pub bili_jct: String,
    pub expires: i64,
}

/// A login code for the web: the address to show and the key to poll with.
#[derive(Default, Debug, Clone, PartialEq)]
pub struct LoginQrData {
    pub url: String,
    pub oauth_key: String,
}

/// The state of a login by code. While the login has not succeeded,
/// `error_data` is below zero: -1 for a wrong key, -2 for an expired key, -4
/// for a code not scanned, -5 for a login not confirmed. Once it has, `url` is
/// the address that the login redirects to.
#[derive(Default, Debug, Clone, PartialEq)]
pub struct LoginQrInfo {
    pub error_data: i64,
    pub url: String,
}

/// The envelope of a reply: the code of the service, its message, and the data
/// of a success.
#[derive(Default, Debug, Clone, PartialEq)]
pub struct Response<T> {
    pub code: i64,
    pub message: String,
    pub ttl: i64,
    pub data: Option<T>,
}

/// The membership of a user.
#[derive(Default, Debug, Clone, PartialEq)]
pub struct Vip {
    pub type_field: i64,
    pub status: i64,
    pub due_date: i64,
    pub vip_pay_type: i64,
    pub theme_type: i64,
    pub label: Label,
    pub avatar_subscript: i64,
    pub nickname_color: String,
    pub role: i64,
    pub avatar_subscript_url: String,
    pub tv_vip_status: i64,
    pub tv_vip_pay_type: i64,
}

/// The label of a membership.
#[derive(Default, Debug, Clone, PartialEq)]
pub struct VipLabel {
    pub path: String,
    pub text: String,
    pub label_theme: String,
    pub text_color: String,
    pub bg_style: i64,
    pub bg_color: String,
    pub border_color: String,
}

/// The pendant of an avatar.
#[derive(Default, Debug, Clone, PartialEq)]
pub struct Pendant {
    pub pid: i64,
    pub name: String,
    pub image: String,
    pub expire: i64,
    pub image_enhance: String,
    pub image_enhance_frame: String,
}

/// The nameplate of a user.
#[derive(Default, Debug, Clone, PartialEq)]
pub struct Nameplate {
    pub nid: i64,
    pub name: String,
    pub image: String,
    pub image_small: String,
    pub level: String,
    pub condition: String,
}

/// The official verification of a user.
#[derive(Default, Debug, Clone, PartialEq)]
pub struct Official {
    pub role: i64,
    pub title: String,
    pub desc: String,
    pub official_type: i64,
}

/// The profession on the account of the user who is logged in.
#[derive(Default, Debug, Clone, PartialEq)]
pub struct ProfessionMyInfo {
    pub id: i64,
    pub name: String,
    pub show_name: String,
    pub is_show: i64,
    pub category_one: String,
}

/// The level of a user and the experience within it.
#[derive(Default, Debug, Clone, PartialEq)]
pub struct LevelExp {
    pub current_level: i64,
    pub current_min: i64,
    pub current_exp: i64,
    pub next_exp: i64,
}

/// A video.
#[derive(Default, Debug, Clone, PartialEq)]
pub struct BvInfo {
    pub bvid: String,
    pub aid: i64,
    pub videos: i64,
    pub tid: i64,
    pub copyright: i64,
    pub pic: String,
    pub title: String,
    pub ctime: i64,
    pub desc: String,
    pub desc_v2: Vec<DescV2>,
    pub state: i64,
    pub duration: i64,
    pub dynamic: String,
    pub cid: i64,
    pub dimension: Dimension,
    pub no_cache: bool,
    pub pages: Vec<Page>,
}

/// A part of the description of a video.
#[derive(Default, Debug, Clone, PartialEq)]
pub struct DescV2 {
    pub raw_text: String,
    pub desc_type: i64,
    pub biz_id: i64,
    pub rights: Rights,
    pub owner: Owner,
    pub stat: Stat,
}

/// The rights flags of a video.
#[derive(Default, Debug, Clone, PartialEq)]
pub struct Rights {
    pub bp: i64,
    pub elec: i64,
    pub download: i64,
    pub movie: i64,
    pub pay: i64,
    pub hd5: i64,
    pub no_reprint: i64,
    pub autoplay: i64,
    pub ugc_pay: i64,
    pub is_cooperation: i64,
    pub ugc_pay_preview: i64,
    pub no_background: i64,
    pub clean_mode: i64,
    pub is_stein_gate: i64,
    pub is_360: i64,
    pub no_share: i64,
}

/// The user who uploaded a video.
#[derive(Default, Debug, Clone, PartialEq)]
pub struct Owner {
    pub mid: i64,
    pub name: String,
    pub face: String,
}

/// The counters of a video.
#[derive(Default, Debug, Clone, PartialEq)]
pub struct Stat {
    pub aid: i64,
    pub view: i64,
    pub danmaku: i64,
    pub reply: i64,
    pub favorite: i64,
    pub coin: i64,
    pub share: i64,
    pub now_rank: i64,
    pub his_rank: i64,
    pub like: i64,
    pub dislike: i64,
    pub evaluation: String,
    pub argue_msg: String,
}

/// The width, height and rotation of a picture.
#[derive(Default, Debug, Clone, PartialEq)]
pub struct Dimension {
    pub width: i64,
    pub height: i64,
    pub rotate: i64,
}

/// A part of a video.
#[derive(Default, Debug, Clone, PartialEq)]
pub struct Page {
    pub cid: i64,
    pub page: i64,
    pub from: String,
    pub part: String,
    pub duration: i64,
    pub vid: String,
    pub weblink: String,
    pub dimension: Dimension,
    pub first_frame: String,
}

/// A video stream.
#[derive(Default, Debug, Clone, PartialEq)]
pub struct Video {
    pub id: i64,
    pub base_url: String,
    pub backup_url: Vec<String>,
    pub backup_url2: Vec<String>,
    pub bandwidth: i64,
    pub mime_type: String,
    pub mime_type2: String,
    pub codecs: String,
    pub width: i64,
    pub height: i64,
    pub frame_rate: String,
    pub frame_rate2: String,
    pub sar: String,
    pub start_with_sap: i64,
    pub start_with_sap2: i64,
    pub segment_base: SegmentBase,
    pub codecid: i64,
}

/// A segment of a stream.
#[derive(Default, Debug, Clone, PartialEq)]
pub struct Durl {
    pub order: i64,
    pub length: i64,
    pub size: i64,
    pub ahead: String,
    pub vhead: String,
    pub url: String,
    pub backup_url: Vec<String>,
}

/// A format in which a stream can be had.
#[derive(Default, Debug, Clone, PartialEq)]
pub struct SupportFormat {
    pub quality: i64,
    pub format: String,
    pub new_description: String,
    pub display_desc: String,
    pub superscript: String,
}

/// An audio stream.
#[derive(Default, Debug, Clone, PartialEq)]
pub struct Audio {
    pub id: i64,
    pub base_url: String,
    pub backup_url: Vec<String>,
    pub backup_url2: Vec<String>,
    pub bandwidth: i64,
    pub mime_type: String,
    pub mime_type2: String,
    pub codecs: String,
    pub width: i64,
    pub height: i64,
    pub frame_rate: String,
    pub frame_rate2: String,
    pub sar: String,
    pub start_with_sap: i64,
    pub start_with_sap2: i64,
    pub segment_base: SegmentBase,
    pub codecid: i64,
}

/// The byte ranges of the initialisation and the index of a stream.
#[derive(Default, Debug, Clone, PartialEq)]
pub struct SegmentBase {
    pub initialization: String,
    pub index_range: String,
}

/// A video quality, by its code.
#[derive(Default, Debug, Clone, PartialEq)]
pub struct VideoQuality {
    pub code: i64,
}

/// A login code for a television: the address to show and the code to poll with.
#[derive(Default, Debug, Clone, PartialEq)]
pub struct TvLoginQrData {
    pub url: String,
    pub auth_code: String,
}

/// The state of a login on a television. `error_data` is 0 for a login that
/// has succeeded, -3 for a wrong key, -400 for a bad request, 86038 for an
/// expired code, 86039 for a login not confirmed.
#[derive(Default, Debug, Clone, PartialEq)]
pub struct LoginTvQrInfo {
    pub error_data: i64,
    pub mid: i64,
    pub access_token: String,
    pub refresh_token: String,
    pub expires_in: i64,
}

/// The label of a membership, with its images.
#[derive(Default, Debug, Clone, PartialEq)]
pub struct Label {
    pub path: String,
    pub text: String,
    pub label_theme: String,
    pub text_color: String,
    pub bg_style: i64,
    pub bg_color: String,
    pub border_color: String,
    pub use_img_label: bool,
    pub img_label_uri_hans: String,
    pub img_label_uri_hant: String,
    pub img_label_uri_hans_static: String,
    pub img_label_uri_hant_static: String,
}

/// The school of a user.
#[derive(Default, Debug, Clone, PartialEq)]
pub struct School {
    pub name: String,
}

/// The theme of a user page.
#[derive(Default, Debug, Clone, PartialEq)]
pub struct Theme {}

/// The notice that the service puts on a user page.
#[derive(Default, Debug, Clone, PartialEq)]
pub struct SysNotice {}

/// The upgrade state of the series of a user.
#[derive(Default, Debug, Clone, PartialEq)]
pub struct Series {
    pub user_upgrade_status: i64,
    pub show_upgrade_window: bool,
}

/// The support that a user accepts.
#[derive(Default, Debug, Clone, PartialEq)]
pub struct Elec {
    pub show_info: ShowInfo,
}

/// How the support of a user is shown.
#[derive(Default, Debug, Clone, PartialEq)]
pub struct ShowInfo {
    pub show: bool,
    pub state: i64,
    pub title: String,
    pub icon: String,
    pub jump_url: String,
}

/// The profession on the public account of a user.
#[derive(Default, Debug, Clone, PartialEq)]
pub struct ProfessionUserInfo {
    pub name: String,
    pub department: String,
    pub title: String,
    pub is_show: i64,
}

/// A page of the videos of a collection.
#[derive(Default, Debug, Clone, PartialEq)]
pub struct CollectionDetailPage {
    pub aids: Vec<i64>,
    pub archives: Vec<VideoArchive>,
    pub meta: CollectionDetailMeta,
    pub page: PageInfo,
}

/// A video in a list.
#[derive(Default, Debug, Clone, PartialEq)]
pub struct VideoArchive {
    pub aid: i64,
    pub bvid: String,
    pub ctime: i64,
    pub duration: i64,
    pub interactive_video: bool,
    pub pic: String,
    pub pubdate: i64,
    pub stat: VideoStat,
    pub state: i64,
    pub title: String,
    pub ugc_pay: i64,
}

/// The counters of a video in a list.
#[derive(Default, Debug, Clone, PartialEq)]
pub struct VideoStat {
    pub view: i64,
}

/// What is known of a collection.
#[derive(Default, Debug, Clone, PartialEq)]
pub struct CollectionDetailMeta {
    pub category: i64,
    pub cover: String,
    pub description: String,
    pub mid: i64,
    pub name: String,
    pub ptime: i64,
    pub season_id: i64,
    pub total: i64,
}

/// The place of a page in a list.
#[derive(Default, Debug, Clone, PartialEq)]
pub struct PageInfo {
    pub page_num: i64,
    pub page_size: i64,
    pub total: i64,
}

/// The reply to a request for the collections and series of a user.
#[derive(Default, Debug, Clone, PartialEq)]
pub struct SeasonsSeriesListData {
    pub items_lists: SeasonsSeriesList,
}

/// A page of the collections and series of a user.
#[derive(Default, Debug, Clone, PartialEq)]
pub struct SeasonsSeriesList {
    pub page: PageInfo,
    pub seasons_list: Vec<SeasonsList>,
    pub series_list: Vec<SeriesList>,
}

/// A collection with its newest videos.
#[derive(Default, Debug, Clone, PartialEq)]
pub struct SeasonsList {
    pub archives: Vec<VideoArchive>,
    pub meta: CollectionDetailMeta,
    pub recent_aids: Vec<i64>,
}

/// A series with its newest videos.
#[derive(Default, Debug, Clone, PartialEq)]
pub struct SeriesList {
    pub archives: Vec<VideoArchive>,
    pub meta: SeriesVideoMeta,
    pub recent_aids: Vec<i64>,
}

/// What is known of a series in a list.
#[derive(Default, Debug, Clone, PartialEq)]
pub struct SeriesVideoMeta {
    pub category: i64,
    pub cover: String,
    pub creator: String,
    pub ctime: i64,
    pub description: String,
    pub keywords: Vec<String>,
    pub last_update_ts: i64,
    pub mid: i64,
    pub mtime: i64,
    pub name: String,
    pub raw_keywords: String,
    pub series_id: i64,
    pub state: i64,
    pub total: i64,
}

/// A series.
#[derive(Default, Debug, Clone, PartialEq)]
pub struct SeriesVideoInfoData {
    pub meta: SeriesVideoInfoMeta,
    pub recent_aids: Vec<i64>,
}

/// What is known of a series.
#[derive(Default, Debug, Clone, PartialEq)]
pub struct SeriesVideoInfoMeta {
    pub series_id: i64,
    pub mid: i64,
    pub name: String,
    pub description: String,
    pub keywords: Vec<String>,
    pub creator: String,
    pub state: i64,
    pub last_update_ts: i64,
    pub total: i64,
    pub ctime: i64,
    pub mtime: i64,
    pub raw_keywords: String,
    pub category: i64,
}

/// The owner of a list of favourites.
#[derive(Default, Debug, Clone, PartialEq)]
pub struct FavListUpper {
    pub mid: i64,
    pub name: String,
    pub face: String,
    pub followed: bool,
    pub vip_type: i64,
    pub vip_statue: i64,
}

/// The user who uploaded a favourite.
#[derive(Default, Debug, Clone, PartialEq)]
pub struct FavListMediaUpper {
    pub mid: i64,
    pub name: String,
    pub face: String,
}

/// A favourite.
#[derive(Default, Debug, Clone, PartialEq)]
pub struct FavListMedia {
    pub id: i64,
    pub type_field: i64,
    pub title: String,
    pub cover: String,
    pub intro: String,
    pub page: i64,
    pub duration: i64,
    pub upper: FavListMediaUpper,
    pub attr: i64,
    pub cnt_info: FavListMediaCntInfo,
    pub link: String,
    pub ctime: i64,
    pub pubtime: i64,
    pub fav_time: i64,
    pub bv_id: String,
    pub bvid: String,
    pub ogv: Option<Ogv>,
    pub ugc: Option<Ugc>,
}

/// The counters of a list of favourites.
#[derive(Default, Debug, Clone, PartialEq)]
pub struct FavListCntInfo {
    pub collect: i64,
    pub play: i64,
    pub thumb_up: i64,
    pub share: i64,
}

/// The counters of a favourite.
#[derive(Default, Debug, Clone, PartialEq)]
pub struct FavListMediaCntInfo {
    pub collect: i64,
    pub play: i64,
    pub danmaku: i64,
    pub vt: i64,
    pub play_switch: i64,
    pub reply: i64,
}

/// The season that a favourite belongs to.
#[derive(Default, Debug, Clone, PartialEq)]
pub struct Ogv {
    pub season_id: i64,
    pub type_id: i64,
    pub kind_name: String,
}

/// The first part of a favourite.
#[derive(Default, Debug, Clone, PartialEq)]
pub struct Ugc {
    pub first_cid: i64,
}

/// A page of a list of favourites.
#[derive(Default, Debug, Clone, PartialEq)]
pub struct FavListPage {
    pub info: FavListInfo,
    pub medias: Vec<FavListMedia>,
    pub has_more: bool,
    pub ttl: i64,
}

/// What is known of a list of favourites.
#[derive(Default, Debug, Clone, PartialEq)]
pub struct FavListInfo {
    pub id: i64,
    pub fid: i64,
    pub mid: i64,
    pub attr: i64,
    pub title: String,
    pub cover: String,
    pub upper: FavListUpper,
    pub cover_type: i64,
    pub cnt_info: FavListCntInfo,
    pub type_field: i64,
    pub intro: String,
    pub ctime: i64,
    pub mtime: i64,
    pub state: i64,
    pub fav_state: i64,
    pub like_state: i64,
    pub media_count: i64,
}

/// Video quality: 240P.
pub fn video_quality_240p() -> (q: VideoQuality)
    ensures
        q.code == 6,
{
    VideoQuality { code: 6 }
}

/// Video quality: 360P.
pub fn video_quality_360p() -> (q: VideoQuality)
    ensures
        q.code == 16,
{
    VideoQuality { code: 16 }
}

/// Video quality: 480P.
pub fn video_quality_480p() -> (q: VideoQuality)
    ensures
        q.code == 32,
{
    VideoQuality { code: 32 }
}

/// Video quality: 720P, the default on the web.
pub fn video_quality_720p() -> (q: VideoQuality)
    ensures
        q.code == 64,
{
    VideoQuality { code: 64 }
}

/// Video quality: 720P at 60 frames a second.
pub fn video_quality_720p_60hz() -> (q: VideoQuality)
    ensures
        q.code == 74,
{
    VideoQuality { code: 74 }
}

/// Video quality: 1080P.
pub fn video_quality_1080p() -> (q: VideoQuality)
    ensures
        q.code == 80,
{
    VideoQuality { code: 80 }
}

/// Video quality: 1080P at a high bit rate.
pub fn video_quality_1080p_high() -> (q: VideoQuality)
    ensures
        q.code == 112,
{
    VideoQuality { code: 112 }
}

/// Video quality: 1080P at 60 frames a second.
pub fn video_quality_1080p_60hz() -> (q: VideoQuality)
    ensures
        q.code == 116,
{
    VideoQuality { code: 116 }
}

/// Video quality: 4K.
pub fn video_quality_4k() -> (q: VideoQuality)
    ensures
        q.code == 120,
{
    VideoQuality { code: 120 }
}

/// Video quality: HDR.
pub fn video_quality_hdr() -> (q: VideoQuality)
    ensures
        q.code == 125,
{
    VideoQuality { code: 125 }
}

/// Stream format flag: FLV.
pub const FNVAL_FLV: i64 = 0;

/// Stream format flag: MP4.
pub const FNVAL_MP4: i64 = 1;

/// Stream format flag: DASH.
pub const FNVAL_DASH: i64 = 16;

/// Stream format flag: DASH with HDR.
pub const FNVAL_DASH_HDR: i64 = 64;

/// Stream format flag: DASH in 4K.
pub const FNVAL_DASH_4K: i64 = 128;

/// Stream format flag: DASH with Dolby audio.
pub const FNVAL_DASH_DB: i64 = 256;

/// Stream format flag: DASH with Dolby Vision.
pub const FNVAL_DASH_VISION: i64 = 512;

/// Stream format flag: DASH in 8K.
pub const FNVAL_DASH_8K: i64 = 1024;

/// Stream format flag: DASH with AV1.
pub const FNVAL_DASH_AV1: i64 = 2048;

/// The order in which a list of favourites is asked for.
#[derive(Clone, Copy, Debug, PartialEq, Eq, Structural)]
pub enum FavListOrder {
    Mtime,
    View,
    Pubtime,
}

impl FavListOrder {
    /// The name of the order as the service writes it.
    pub open spec fn name(self) -> Seq<char> {
        match self {
            FavListOrder::Mtime => "mtime"@,
            FavListOrder::View => "view"@,
            FavListOrder::Pubtime => "pubtime"@,
        }
    }

    /// The name of the order as the service writes it.
    pub fn as_str(&self) -> (s: &'static str)
        ensures
            s@ == self.name(),
    {
        match self {
            FavListOrder::Mtime => "mtime",
            FavListOrder::View => "view",
            FavListOrder::Pubtime => "pubtime",
        }
    }
}

/// The empty string.
pub fn default_string() -> (s: String)
    ensures
        s@ == Seq::<char>::empty(),
{
    String::new()
}

/// Zero.
pub fn default_i64() -> (n: i64)
    ensures
        n == 0,
{
    0
}

/// `false`.
pub fn default_bool() -> (b: bool)
    ensures
        !b,
{
    false
}

/// No value.
pub fn default_option<T>() -> (o: Option<T>)
    ensures
        o is None,
{
    Option::None
}

/// The empty list.
pub fn default_vec<T>() -> (v: Vec<T>)
    ensures
        v@ == Seq::<T>::empty(),
{
    Vec::new()
}

/// Rights with every flag at zero.
pub fn default_rights() -> (r: Rights)
    ensures
        r.bp == 0,
        r.elec == 0,
        r.download == 0,
        r.movie == 0,
        r.pay == 0,
        r.hd5 == 0,
        r.no_reprint == 0,
        r.autoplay == 0,
        r.ugc_pay == 0,
        r.is_cooperation == 0,
        r.ugc_pay_preview == 0,
        r.no_background == 0,
        r.clean_mode == 0,
        r.is_stein_gate == 0,
        r.is_360 == 0,
        r.no_share == 0,
{
    Rights {
        bp: 0,
        elec: 0,
        download: 0,
        movie: 0,
        pay: 0,
        hd5: 0,
        no_reprint: 0,
        autoplay: 0,
        ugc_pay: 0,
        is_cooperation: 0,
        ugc_pay_preview: 0,
        no_background: 0,
        clean_mode: 0,
        is_stein_gate: 0,
        is_360: 0,
        no_share: 0,
    }
}

/// An owner with the id zero and no name or face.
pub fn default_owner() -> (o: Owner)
    ensures
        o.mid == 0,
        o.name@ == Seq::<char>::empty(),
        o.face@ == Seq::<char>::empty(),
{
    Owner { mid: 0, name: String::new(), face: String::new() }
}

/// Statistics with every count at zero and no text.
pub fn default_stat() -> (s: Stat)
    ensures
        s.aid == 0,
        s.view == 0,
        s.danmaku == 0,
        s.reply == 0,
        s.favorite == 0,
        s.coin == 0,
        s.share == 0,
        s.now_rank == 0,
        s.his_rank == 0,
        s.like == 0,
        s.dislike == 0,
        s.evaluation@ == Seq::<char>::empty(),
        s.argue_msg@ == Seq::<char>::empty(),
{
    Stat {
        aid: 0,
        view: 0,
        danmaku: 0,
        reply: 0,
        favorite: 0,
        coin: 0,
        share: 0,
        now_rank: 0,
        his_rank: 0,
        like: 0,
        dislike: 0,
        evaluation: String::new(),
        argue_msg: String::new(),
    }
}

/// A dimension of zero width, height and rotation.
pub fn default_dimension() -> (d: Dimension)
    ensures
        d.width == 0,
        d.height == 0,
        d.rotate == 0,
{
    Dimension { width: 0, height: 0, rotate: 0 }
}

} // verus!
