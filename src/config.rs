//! The configuration snapshot: display, colors, data-tag templates,
//! performance and network settings, with their defaults.
//!
//! Lengths on screen are in thousandths of a pixel; scale factors are in
//! thousandths.

use vstd::prelude::*;
use crate::projection::SCREEN_LIMIT;

verus! {

/// Display settings.
#[derive(Debug)]
pub struct DisplayConfig {
    /// Target symbol scale, in thousandths.
    pub target_scale: i64,
    /// Target symbol stroke width, in thousandths of a pixel.
    pub target_stroke: i64,
    /// Data tag font size, in thousandths of a pixel.
    pub font_size: i64,
    /// Number of history points kept per aircraft.
    pub history_length: usize,
    /// History dot radius, in thousandths of a pixel.
    pub history_dot_size: i64,
    /// Look-ahead of the predictive vector, in thousandths of a minute.
    pub vector_minutes: u32,
    pub show_vectors: bool,
    pub show_history: bool,
    pub show_tags: bool,
}

/// Colors, as hex strings such as "#00FF00".
#[derive(Debug)]
pub struct ColorConfig {
    pub background: String,
    pub target: String,
    pub target_selected: String,
    pub target_emergency: String,
    pub tag_text: String,
    pub history: String,
    pub vector: String,
    pub ground: String,
}

/// Data tag layout and templates.
#[derive(Debug)]
pub struct DataTagConfig {
    /// Offset of the tag from the target symbol, in thousandths of a pixel.
    pub offset: (i64, i64),
    /// Distance between tag lines, in thousandths of a pixel.
    pub line_spacing: i64,
    /// Template of line 1. Tokens: {callsign}, {altitude}, {altitude:03},
    /// {speed}, {speed:03}, {gs}, {gs:03}, {heading}, {heading:03}, {type}.
    pub line1: String,
    pub line2: String,
    pub line3: Option<String>,
    pub line4: Option<String>,
}

/// Performance settings.
#[derive(Debug)]
pub struct PerformanceConfig {
    pub target_fps: u32,
    pub max_aircraft: usize,
    pub anti_aliasing: bool,
    /// Seconds without a sample after which an aircraft is dropped.
    pub stale_after_secs: i64,
}

/// Network settings.
#[derive(Debug)]
pub struct NetworkConfig {
    pub websocket_url: String,
    pub api_base_url: String,
    pub reconnect_delay_secs: u64,
    pub enable_main_server: bool,
    /// Whether payloads of the event data source are applied.
    pub enable_event_server: bool,
}

/// The whole configuration snapshot.
#[derive(Debug)]
pub struct RadarConfig {
    pub display: DisplayConfig,
    pub colors: ColorConfig,
    pub data_tags: DataTagConfig,
    pub performance: PerformanceConfig,
    pub network: NetworkConfig,
}

impl DisplayConfig {
    /// Sizes within the screen range.
    pub open spec fn wf(&self) -> bool {
        &&& -SCREEN_LIMIT <= self.target_scale <= SCREEN_LIMIT
        &&& -SCREEN_LIMIT <= self.target_stroke <= SCREEN_LIMIT
        &&& -SCREEN_LIMIT <= self.font_size <= SCREEN_LIMIT
        &&& -SCREEN_LIMIT <= self.history_dot_size <= SCREEN_LIMIT
    }
}

impl DataTagConfig {
    /// Offsets and spacing within the screen range.
    pub open spec fn wf(&self) -> bool {
        &&& -SCREEN_LIMIT <= self.offset.0 <= SCREEN_LIMIT
        &&& -SCREEN_LIMIT <= self.offset.1 <= SCREEN_LIMIT
        &&& -SCREEN_LIMIT <= self.line_spacing <= SCREEN_LIMIT
    }
}

/// Whether display settings are the defaults.
pub open spec fn is_default_display(d: DisplayConfig) -> bool {
    &&& d.target_scale == 1000 && d.target_stroke == 2000 && d.font_size == 12000
    &&& d.history_length == 20 && d.history_dot_size == 2000 && d.vector_minutes == 3000
    &&& d.show_vectors && d.show_history && d.show_tags
}

/// Whether colors are the defaults.
pub open spec fn is_default_colors(c: ColorConfig) -> bool {
    &&& c.background@ == "#0A0E1A"@
    &&& c.target@ == "#00FF00"@
    &&& c.target_selected@ == "#FFD700"@
    &&& c.target_emergency@ == "#FF0000"@
    &&& c.tag_text@ == "#00FF00"@
    &&& c.history@ == "#00AA00"@
    &&& c.vector@ == "#0088FF"@
    &&& c.ground@ == "#888888"@
}

/// Whether data-tag settings are the defaults.
pub open spec fn is_default_tags(g: DataTagConfig) -> bool {
    &&& g.offset == (15000i64, -10000i64)
    &&& g.line_spacing == 14000
    &&& g.line1@ == "{callsign}"@
    &&& g.line2@ == "F{altitude:03} {gs:03}KT"@
    &&& g.line3.is_none() && g.line4.is_none()
}

/// Whether performance settings are the defaults.
pub open spec fn is_default_performance(p: PerformanceConfig) -> bool {
    p.target_fps == 60 && p.max_aircraft == 500 && p.anti_aliasing && p.stale_after_secs == 60
}

/// Whether network settings are the defaults.
pub open spec fn is_default_network(n: NetworkConfig) -> bool {
    &&& n.websocket_url@ == "wss://24data.ptfs.app/wss"@
    &&& n.api_base_url@ == "https://24data.ptfs.app"@
    &&& n.reconnect_delay_secs == 5
    &&& n.enable_main_server
    &&& !n.enable_event_server
}

/// Whether a configuration is the default one, in every field.
pub open spec fn is_default_config(c: RadarConfig) -> bool {
    &&& is_default_display(c.display)
    &&& is_default_colors(c.colors)
    &&& is_default_tags(c.data_tags)
    &&& is_default_performance(c.performance)
    &&& is_default_network(c.network)
}

pub fn default_target_scale() -> (r: i64)
    ensures
        r == 1000,
{
    1000
}

pub fn default_target_stroke() -> (r: i64)
    ensures
        r == 2000,
{
    2000
}

pub fn default_font_size() -> (r: i64)
    ensures
        r == 12000,
{
    12000
}

pub fn default_history_length() -> (r: usize)
    ensures
        r == 20,
{
    20
}

pub fn default_history_dot_size() -> (r: i64)
    ensures
        r == 2000,
{
    2000
}

pub fn default_vector_minutes() -> (r: u32)
    ensures
        r == 3000,
{
    3000
}

pub fn default_true() -> (r: bool)
    ensures
        r,
{
    true
}

pub fn default_false() -> (r: bool)
    ensures
        !r,
{
    false
}

pub fn default_bg_color() -> (r: String)
    ensures
        r@ == "#0A0E1A"@,
{
    String::from_str("#0A0E1A")
}

pub fn default_target_color() -> (r: String)
    ensures
        r@ == "#00FF00"@,
{
    String::from_str("#00FF00")
}

pub fn default_selected_color() -> (r: String)
    ensures
        r@ == "#FFD700"@,
{
    String::from_str("#FFD700")
}

pub fn default_emergency_color() -> (r: String)
    ensures
        r@ == "#FF0000"@,
{
    String::from_str("#FF0000")
}

pub fn default_tag_color() -> (r: String)
    ensures
        r@ == "#00FF00"@,
{
    String::from_str("#00FF00")
}

pub fn default_history_color() -> (r: String)
    ensures
        r@ == "#00AA00"@,
{
    String::from_str("#00AA00")
}

pub fn default_vector_color() -> (r: String)
    ensures
        r@ == "#0088FF"@,
{
    String::from_str("#0088FF")
}

pub fn default_ground_color() -> (r: String)
    ensures
        r@ == "#888888"@,
{
    String::from_str("#888888")
}

pub fn default_tag_offset() -> (r: (i64, i64))
    ensures
        r == (15000i64, -10000i64),
{
    (15000, -10000)
}

pub fn default_line_spacing() -> (r: i64)
    ensures
        r == 14000,
{
    14000
}

pub fn default_line1() -> (r: String)
    ensures
        r@ == "{callsign}"@,
{
    String::from_str("{callsign}")
}

pub fn default_line2() -> (r: String)
    ensures
        r@ == "F{altitude:03} {gs:03}KT"@,
{
    String::from_str("F{altitude:03} {gs:03}KT")
}

pub fn default_fps() -> (r: u32)
    ensures
        r == 60,
{
    60
}

pub fn default_max_aircraft() -> (r: usize)
    ensures
        r == 500,
{
    500
}

pub fn default_stale_after_secs() -> (r: i64)
    ensures
        r == 60,
{
    60
}

pub fn default_ws_url() -> (r: String)
    ensures
        r@ == "wss://24data.ptfs.app/wss"@,
{
    String::from_str("wss://24data.ptfs.app/wss")
}

pub fn default_api_url() -> (r: String)
    ensures
        r@ == "https://24data.ptfs.app"@,
{
    String::from_str("https://24data.ptfs.app")
}

pub fn default_reconnect_delay() -> (r: u64)
    ensures
        r == 5,
{
    5
}

/// Name of the configuration file.
pub fn config_path() -> (r: String)
    ensures
        r@ == "config.toml"@,
{
    String::from_str("config.toml")
}

impl Default for DisplayConfig {
    fn default() -> (r: Self)
        ensures
            is_default_display(r),
    {
        DisplayConfig {
            target_scale: default_target_scale(),
            target_stroke: default_target_stroke(),
            font_size: default_font_size(),
            history_length: default_history_length(),
            history_dot_size: default_history_dot_size(),
            vector_minutes: default_vector_minutes(),
            show_vectors: default_true(),
            show_history: default_true(),
            show_tags: default_true(),
        }
    }
}

impl Default for ColorConfig {
    fn default() -> (r: Self)
        ensures
            is_default_colors(r),
    {
        ColorConfig {
            background: default_bg_color(),
            target: default_target_color(),
            target_selected: default_selected_color(),
            target_emergency: default_emergency_color(),
            tag_text: default_tag_color(),
            history: default_history_color(),
            vector: default_vector_color(),
            ground: default_ground_color(),
        }
    }
}

impl Default for DataTagConfig {
    fn default() -> (r: Self)
        ensures
            is_default_tags(r),
    {
        DataTagConfig {
            offset: default_tag_offset(),
            line_spacing: default_line_spacing(),
            line1: default_line1(),
            line2: default_line2(),
            line3: None,
            line4: None,
        }
    }
}

impl Default for PerformanceConfig {
    fn default() -> (r: Self)
        ensures
            is_default_performance(r),
    {
        PerformanceConfig {
            target_fps: default_fps(),
            max_aircraft: default_max_aircraft(),
            anti_aliasing: default_true(),
            stale_after_secs: default_stale_after_secs(),
        }
    }
}

impl Default for NetworkConfig {
    fn default() -> (r: Self)
        ensures
            is_default_network(r),
    {
        NetworkConfig {
            websocket_url: default_ws_url(),
            api_base_url: default_api_url(),
            reconnect_delay_secs: default_reconnect_delay(),
            enable_main_server: default_true(),
            enable_event_server: default_false(),
        }
    }
}

impl Default for RadarConfig {
    fn default() -> (r: Self)
        ensures
            is_default_config(r),
    {
        RadarConfig {
            display: DisplayConfig::default(),
            colors: ColorConfig::default(),
            data_tags: DataTagConfig::default(),
            performance: PerformanceConfig::default(),
            network: NetworkConfig::default(),
        }
    }
}

impl Clone for DisplayConfig {
    fn clone(&self) -> (r: Self)
        ensures
            r == *self,
    {
        DisplayConfig {
            target_scale: self.target_scale,
            target_stroke: self.target_stroke,
            font_size: self.font_size,
            history_length: self.history_length,
            history_dot_size: self.history_dot_size,
            vector_minutes: self.vector_minutes,
            show_vectors: self.show_vectors,
            show_history: self.show_history,
            show_tags: self.show_tags,
        }
    }
}

impl Clone for ColorConfig {
    fn clone(&self) -> (r: Self)
        ensures
            r == *self,
    {
        ColorConfig {
            background: self.background.clone(),
            target: self.target.clone(),
            target_selected: self.target_selected.clone(),
            target_emergency: self.target_emergency.clone(),
            tag_text: self.tag_text.clone(),
            history: self.history.clone(),
            vector: self.vector.clone(),
            ground: self.ground.clone(),
        }
    }
}

impl Clone for DataTagConfig {
    fn clone(&self) -> (r: Self)
        ensures
            r == *self,
    {
        DataTagConfig {
            offset: self.offset,
            line_spacing: self.line_spacing,
            line1: self.line1.clone(),
            line2: self.line2.clone(),
            line3: crate::types::clone_opt_string(&self.line3),
            line4: crate::types::clone_opt_string(&self.line4),
        }
    }
}

impl Clone for PerformanceConfig {
    fn clone(&self) -> (r: Self)
        ensures
            r == *self,
    {
        PerformanceConfig {
            target_fps: self.target_fps,
            max_aircraft: self.max_aircraft,
            anti_aliasing: self.anti_aliasing,
            stale_after_secs: self.stale_after_secs,
        }
    }
}

impl Clone for NetworkConfig {
    fn clone(&self) -> (r: Self)
        ensures
            r == *self,
    {
        NetworkConfig {
            websocket_url: self.websocket_url.clone(),
            api_base_url: self.api_base_url.clone(),
            reconnect_delay_secs: self.reconnect_delay_secs,
            enable_main_server: self.enable_main_server,
            enable_event_server: self.enable_event_server,
        }
    }
}

impl Clone for RadarConfig {
    fn clone(&self) -> (r: Self)
        ensures
            r == *self,
    {
        RadarConfig {
            display: self.display.clone(),
            colors: self.colors.clone(),
            data_tags: self.data_tags.clone(),
            performance: self.performance.clone(),
            network: self.network.clone(),
        }
    }
}

} // verus!
