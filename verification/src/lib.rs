//! A client library for the web and television interfaces of a video
//! platform: the conversion between numeric video ids and short codes, the
//! signing of requests, the reading of replies, and the extraction of the data
//! that pages carry.
//!
//! The library computes; it sends and receives nothing. A program that uses
//! it hands in the text that it received and sends the requests that the
//! library describes.

pub mod api;
pub mod codec;
pub mod entities;
pub mod extract;
pub mod json;
pub mod lenient;
pub mod parse;
pub mod passport;
pub mod request;
pub mod sign;
pub mod text;
pub mod token;

pub use api::{unwrap_response, unwrap_value, ApiError};
pub use codec::{av_to_bv, bv_to_av, DecodeError};
pub use entities::{
    Audio, BvInfo, CollectionDetailMeta, CollectionDetailPage, DescV2, Dimension, Durl,
    Elec, FNVAL_DASH, FNVAL_DASH_4K, FNVAL_DASH_8K, FNVAL_DASH_AV1, FNVAL_DASH_DB,
    FNVAL_DASH_HDR, FNVAL_DASH_VISION, FNVAL_FLV, FNVAL_MP4, FavListCntInfo, FavListInfo,
    FavListMedia, FavListMediaCntInfo, FavListMediaUpper, FavListOrder, FavListPage,
    FavListUpper, Label, LevelExp, LoginQrData, LoginQrInfo, LoginTvQrInfo, Nameplate,
    Official, Ogv, Owner, Page, PageInfo, Pendant, ProfessionMyInfo, ProfessionUserInfo,
    Response, Rights, School, SeasonsList, SeasonsSeriesList, SeasonsSeriesListData,
    SegmentBase, Series, SeriesList, SeriesVideoInfoData, SeriesVideoInfoMeta,
    SeriesVideoMeta, ShowInfo, Stat, SupportFormat, SysNotice, Theme, TvLoginQrData, Ugc,
    Video, VideoArchive, VideoQuality, VideoStat, Vip, VipLabel, WebToken, default_bool,
    default_dimension, default_i64, default_option, default_owner, default_rights,
    default_stat, default_string, default_vec, video_quality_1080p,
    video_quality_1080p_60hz, video_quality_1080p_high, video_quality_240p,
    video_quality_360p, video_quality_480p, video_quality_4k, video_quality_720p,
    video_quality_720p_60hz, video_quality_hdr, web,
};
pub use extract::{extract, navigate, season_state, ExtractError, NavStep};
pub use json::{JsonNumber, JsonValue};
pub use lenient::{fuzzy_bool, null_vec};
pub use parse::from_str;
pub use sign::{sign_form, SignError};
pub use token::login_qr_info_parse_token;
