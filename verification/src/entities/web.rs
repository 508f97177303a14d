//! The records of the season pages of the web site.

use vstd::prelude::*;

verus! {

/// The price of a season.
#[derive(Default, Debug, Clone, PartialEq)]
pub struct Payment {
    pub price: String,
    pub tip: String,
    pub vip_promotion: String,
    pub vip_first_promotion: String,
    pub vip_discount: i64,
    pub pay_type: PayType,
    pub vip_price: String,
}

/// The ways in which a season can be paid.
#[derive(Default, Debug, Clone, PartialEq)]
pub struct PayType {
    pub allow_ticket: bool,
    pub allow_vip_discount: bool,
}

/// The counters of a season.
#[derive(Default, Debug, Clone, PartialEq)]
pub struct SsMediaStat {
    pub coins: i64,
    pub danmakus: i64,
    pub favorite: i64,
    pub favorites: i64,
    pub likes: i64,
    pub reply: i64,
    pub share: i64,
    pub views: i64,
}

/// The bubble shown on a season page.
#[derive(Default, Debug, Clone, PartialEq)]
pub struct SsMediaFreya {
    pub bubble_desc: String,
    pub bubble_show_cnt: i64,
    pub icon_show: i64,
}

/// An episode.
#[derive(Default, Debug, Clone, PartialEq)]
pub struct Ep {
    pub aid: i64,
    pub badge: String,
    pub badge_info: BadgeInfo,
    pub bvid: String,
    pub cid: i64,
    pub cover: String,
    pub dimension: Dimension,
    pub duration: i64,
    pub enable_vt: bool,
    pub from: String,
    pub id: i64,
    pub is_view_hide: bool,
    pub link: String,
    pub long_title: String,
    pub pub_time: i64,
    pub pv: i64,
    pub release_date: String,
    pub rights: EpRights,
    pub share_copy: String,
    pub share_url: String,
    pub short_link: String,
    pub skip: Skip,
    pub status: i64,
    pub subtitle: String,
    pub title: String,
    pub vid: String,
    pub loaded: bool,
    pub ep_id: i64,
    pub bg_color: String,
    pub title_format: String,
    pub section_type: i64,
    pub has_next: bool,
    pub has_skip: bool,
}

/// The badge of an episode.
#[derive(Default, Debug, Clone, PartialEq)]
pub struct BadgeInfo {
    pub bg_color: String,
    pub bg_color_night: String,
    pub text: String,
}

/// The height, rotation and width of a picture.
#[derive(Default, Debug, Clone, PartialEq)]
pub struct Dimension {
    pub height: i64,
    pub rotate: i64,
    pub width: i64,
}

/// The rights flags of an episode.
#[derive(Default, Debug, Clone, PartialEq)]
pub struct EpRights {
    pub allow_demand: i64,
    pub allow_dm: i64,
    pub allow_download: i64,
    pub area_limit: bool,
}

/// The parts of an episode that can be skipped.
#[derive(Default, Debug, Clone, PartialEq)]
pub struct Skip {
    pub ed: Option<SkipEd>,
    pub op: Option<SkipOp>,
}

/// The ending of an episode.
#[derive(Default, Debug, Clone, PartialEq)]
pub struct SkipEd {
    pub end: i64,
    pub start: i64,
}

/// The opening of an episode.
#[derive(Default, Debug, Clone, PartialEq)]
pub struct SkipOp {
    pub end: i64,
    pub start: i64,
}

/// What the user who is logged in may do with a season.
#[derive(Default, Debug, Clone, PartialEq)]
pub struct UserStatus {
    pub area_limit: i64,
    pub ban_area_show: i64,
    pub follow: i64,
    pub follow_status: i64,
    pub login: i64,
    pub pay: i64,
    pub pay_pack_paid: i64,
    pub sponsor: i64,
    pub vip_info: VipInfo,
    pub progress: Option<Progress>,
}

/// How far the user has watched a season.
#[derive(Default, Debug, Clone, PartialEq)]
pub struct Progress {
    pub last_ep_id: i64,
    pub last_ep_index: String,
    pub last_time: i64,
}

/// The membership of the user who is logged in.
#[derive(Default, Debug, Clone, PartialEq)]
pub struct VipInfo {
    pub due_date: i64,
    pub status: i64,
    pub type_field: i64,
}

/// An area in which a season is shown.
#[derive(Default, Debug, Clone, PartialEq)]
pub struct Area {
    pub id: i64,
    pub name: String,
}

/// The kind of a season.
#[derive(Default, Debug, Clone, PartialEq)]
pub struct SsTypeFormat {
    pub name: String,
    pub home_link: String,
}

/// The state of publication of a season.
#[derive(Default, Debug, Clone, PartialEq)]
pub struct Publish {
    pub is_started: bool,
    pub is_finish: bool,
    pub unknow_pub_date: bool,
    pub pub_time: String,
    pub pub_time_show: String,
}

/// The rights flags of a season.
#[derive(Default, Debug, Clone, PartialEq)]
pub struct SsMediaRights {
    pub allow_bp: bool,
    pub allow_bp_rank: bool,
    pub allow_review: bool,
    pub is_preview: bool,
    pub is_cover_show: bool,
    pub can_watch: bool,
    pub app_only: bool,
    pub limit_not_found: bool,
    pub copyright: String,
    pub area_limit: bool,
    pub allow_demand: i64,
    pub allow_dm: i64,
    pub allow_download: i64,
}

/// The user who uploaded a season.
#[derive(Default, Debug, Clone, PartialEq)]
pub struct UpInfo {
    pub avatar: String,
    pub is_annual_vip: bool,
    pub pendant_id: i64,
    pub pendant_name: String,
    pub pendant_image: String,
}

/// The pack in which a season is sold.
#[derive(Default, Debug, Clone, PartialEq)]
pub struct PayPack {
    pub url: String,
}

/// The strategies by which a season is played.
#[derive(Default, Debug, Clone, PartialEq)]
pub struct PlayStrategy {
    pub strategies: Vec<String>,
}

/// A section of a season.
#[derive(Default, Debug, Clone, PartialEq)]
pub struct Section {
    pub id: i64,
    pub title: String,
    pub type_field: i64,
    pub ep_list: Vec<Ep>,
}

/// A season in the list of related seasons.
#[derive(Default, Debug, Clone, PartialEq)]
pub struct Season {
    pub season_id: i64,
    pub season_title: String,
    pub season_type: i64,
    pub pgc_type: String,
    pub cover: String,
    pub ep_cover: String,
    pub desc: String,
    pub badge_type: i64,
    pub badge: String,
    pub badge_color: String,
    pub views: i64,
    pub series_follow: i64,
    pub enable_vt: bool,
}

} // verus!
