//! Configuration of the client.

use vstd::prelude::*;
use crate::paths::{config_dir, expand_with_home, expanded, home_dir, join_path, joined_path};
use crate::text::{lowercase, parse_number, parse_unsigned, split, split_char, str_eq,
    to_lowercase, trim, trimmed};

verus! {

/// Main configuration structure.
#[derive(Debug, Clone)]
pub struct Config {
    pub jwst: JwstConfig,
    pub remote: RemoteConfig,
    pub generation: GenerationConfig,
    pub wallust: WallustConfig,
}

/// Image source configuration.
#[derive(Debug, Clone)]
pub struct JwstConfig {
    /// Path to the API key file.
    pub api_key_file: String,
    /// Directory for downloaded wallpapers.
    pub wallpaper_dir: String,
    /// Cache directory.
    pub cache_dir: String,
    /// How long cached listings stay valid, in seconds.
    pub cache_ttl: u64,
    /// URL of the ESA feed.
    pub esa_rss_url: String,
    /// Base URL of the ESA content servers.
    pub esa_cdn_base: String,
    /// Base URL of the image API.
    pub api_base: String,
}

/// Remote server configuration.
#[derive(Debug, Clone)]
pub struct RemoteConfig {
    /// Remote host address.
    pub host: String,
    /// SSH user.
    pub user: String,
    /// Port of the language model server.
    pub ollama_port: u16,
    /// Port of the image generation server.
    pub comfyui_port: u16,
    /// Path of the SSH key, if one is to be used.
    pub ssh_key: Option<String>,
}

/// Image generation configuration.
#[derive(Debug, Clone)]
pub struct GenerationConfig {
    /// Default output size.
    pub default_size: String,
    /// Default model.
    pub default_model: String,
    /// Whether to upscale generated images.
    pub enable_upscaling: bool,
    /// Name of the upscaling model.
    pub upscale_model: String,
}

/// Colour system configuration.
#[derive(Debug, Clone)]
pub struct WallustConfig {
    /// Whether generated images are applied as wallpaper at once.
    pub auto_apply: bool,
    /// Path of the script that refreshes the theme.
    pub refresh_script: String,
    /// Path of the file that names the current colour scheme.
    pub color_scheme_path: String,
}

pub fn default_api_key_file() -> (r: String)
    ensures
        r@ == "/run/agenix/jwst-api-key"@,
{
    String::from_str("/run/agenix/jwst-api-key")
}

pub fn default_wallpaper_dir() -> (r: String)
    ensures
        r@ == "~/Pictures/Wallpapers"@,
{
    String::from_str("~/Pictures/Wallpapers")
}

pub fn default_cache_dir() -> (r: String)
    ensures
        r@ == "~/.cache/jwst-cosmos"@,
{
    String::from_str("~/.cache/jwst-cosmos")
}

pub fn default_cache_ttl() -> (r: u64)
    ensures
        r == 3600,
{
    3600
}

pub fn default_esa_rss_url() -> (r: String)
    ensures
        r@ == "https://feeds.feedburner.com/esawebb/images/"@,
{
    String::from_str("https://feeds.feedburner.com/esawebb/images/")
}

pub fn default_esa_cdn_base() -> (r: String)
    ensures
        r@ == "https://cdn.esawebb.org/archives/images"@,
{
    String::from_str("https://cdn.esawebb.org/archives/images")
}

pub fn default_api_base() -> (r: String)
    ensures
        r@ == "https://api.jwstapi.com"@,
{
    String::from_str("https://api.jwstapi.com")
}

pub fn default_remote_host() -> (r: String)
    ensures
        r@ == "192.168.0.27"@,
{
    String::from_str("192.168.0.27")
}

pub fn default_remote_user() -> (r: String)
    ensures
        r@ == "garrett"@,
{
    String::from_str("garrett")
}

pub fn default_ollama_port() -> (r: u16)
    ensures
        r == 11434,
{
    11434
}

pub fn default_comfyui_port() -> (r: u16)
    ensures
        r == 8188,
{
    8188
}

pub fn default_size() -> (r: String)
    ensures
        r@ == "5120x2160"@,
{
    String::from_str("5120x2160")
}

pub fn default_model() -> (r: String)
    ensures
        r@ == "sdxl"@,
{
    String::from_str("sdxl")
}

pub fn default_enable_upscaling() -> (r: bool)
    ensures
        r,
{
    true
}

pub fn default_upscale_model() -> (r: String)
    ensures
        r@ == "realesrgan-x4plus"@,
{
    String::from_str("realesrgan-x4plus")
}

pub fn default_auto_apply() -> (r: bool)
    ensures
        r,
{
    true
}

pub fn default_refresh_script() -> (r: String)
    ensures
        r@ == "/etc/nixos/scripts/refresh-theme"@,
{
    String::from_str("/etc/nixos/scripts/refresh-theme")
}

pub fn default_color_scheme_path() -> (r: String)
    ensures
        r@ == "~/.local/state/caelestia/scheme/current.txt"@,
{
    String::from_str("~/.local/state/caelestia/scheme/current.txt")
}

impl JwstConfig {
    /// Every setting has its default value.
    pub open spec fn is_default(self) -> bool {
        &&& self.api_key_file@ == "/run/agenix/jwst-api-key"@
        &&& self.wallpaper_dir@ == "~/Pictures/Wallpapers"@
        &&& self.cache_dir@ == "~/.cache/jwst-cosmos"@
        &&& self.cache_ttl == 3600
        &&& self.esa_rss_url@ == "https://feeds.feedburner.com/esawebb/images/"@
        &&& self.esa_cdn_base@ == "https://cdn.esawebb.org/archives/images"@
        &&& self.api_base@ == "https://api.jwstapi.com"@
    }
}

impl Default for JwstConfig {
    fn default() -> (r: JwstConfig)
        ensures
            r.is_default(),
    {
        JwstConfig {
            api_key_file: default_api_key_file(),
            wallpaper_dir: default_wallpaper_dir(),
            cache_dir: default_cache_dir(),
            cache_ttl: default_cache_ttl(),
            esa_rss_url: default_esa_rss_url(),
            esa_cdn_base: default_esa_cdn_base(),
            api_base: default_api_base(),
        }
    }
}

impl RemoteConfig {
    /// Every setting has its default value.
    pub open spec fn is_default(self) -> bool {
        &&& self.host@ == "192.168.0.27"@
        &&& self.user@ == "garrett"@
        &&& self.ollama_port == 11434
        &&& self.comfyui_port == 8188
        &&& self.ssh_key is None
    }
}

impl Default for RemoteConfig {
    fn default() -> (r: RemoteConfig)
        ensures
            r.is_default(),
    {
        RemoteConfig {
            host: default_remote_host(),
            user: default_remote_user(),
            ollama_port: default_ollama_port(),
            comfyui_port: default_comfyui_port(),
            ssh_key: None,
        }
    }
}

impl GenerationConfig {
    /// Every setting has its default value.
    pub open spec fn is_default(self) -> bool {
        &&& self.default_size@ == "5120x2160"@
        &&& self.default_model@ == "sdxl"@
        &&& self.enable_upscaling
        &&& self.upscale_model@ == "realesrgan-x4plus"@
    }
}

impl Default for GenerationConfig {
    fn default() -> (r: GenerationConfig)
        ensures
            r.is_default(),
    {
        GenerationConfig {
            default_size: default_size(),
            default_model: default_model(),
            enable_upscaling: default_enable_upscaling(),
            upscale_model: default_upscale_model(),
        }
    }
}

impl WallustConfig {
    /// Every setting has its default value.
    pub open spec fn is_default(self) -> bool {
        &&& self.auto_apply
        &&& self.refresh_script@ == "/etc/nixos/scripts/refresh-theme"@
        &&& self.color_scheme_path@ == "~/.local/state/caelestia/scheme/current.txt"@
    }
}

impl Default for WallustConfig {
    fn default() -> (r: WallustConfig)
        ensures
            r.is_default(),
    {
        WallustConfig {
            auto_apply: default_auto_apply(),
            refresh_script: default_refresh_script(),
            color_scheme_path: default_color_scheme_path(),
        }
    }
}

impl Default for Config {
    fn default() -> (r: Config)
        ensures
            r.is_default(),
    {
        Config {
            jwst: JwstConfig::default(),
            remote: RemoteConfig::default(),
            generation: GenerationConfig::default(),
            wallust: WallustConfig::default(),
        }
    }
}

/// Why no configuration could be had from a file.
#[derive(Debug, Clone, Copy, PartialEq, Eq)]
pub enum ConfigError {
    /// The file could not be read.
    Read,
    /// The file does not hold a configuration.
    Parse,
}

/// The number that a piece of a size stands for: its value where it is an
/// unsigned decimal number that fits 32 bits, and zero otherwise.
pub open spec fn dimension(piece: Seq<char>) -> u32 {
    match parse_unsigned(piece, u32::MAX as nat) {
        Some(v) => v as u32,
        None => 0u32,
    }
}

/// The width and height that a text of the form `<width>x<height>` stands
/// for. Pieces after the second are not read; a text without an `x` stands
/// for 5120 by 2160.
pub open spec fn size_in(text: Seq<char>) -> (u32, u32) {
    let pieces = split(text, 'x');
    if pieces.len() >= 2 {
        (dimension(pieces[0]), dimension(pieces[1]))
    } else {
        (5120u32, 2160u32)
    }
}

/// The size text that a name stands for, given the name's lower-case form:
/// the size of the preset of that name, or the name itself.
pub open spec fn size_text(name: Seq<char>, lower: Seq<char>) -> Seq<char> {
    if lower == "hd"@ {
        "1920x1080"@
    } else if lower == "qhd"@ {
        "2560x1440"@
    } else if lower == "laptop"@ {
        "2560x1600"@
    } else if lower == "4k"@ {
        "3840x2160"@
    } else if lower == "ultrawide"@ {
        "5120x2160"@
    } else {
        name
    }
}

/// The number that a piece of a size stands for.
pub fn parse_dimension(piece: &str) -> (r: u32)
    ensures
        r == dimension(piece@),
{
    match parse_number(piece, 0xFFFF_FFFF) {
        Some(v) => v as u32,
        None => 0,
    }
}

/// The width and height that a text of the form `<width>x<height>` stands
/// for.
pub fn parse_dimensions(text: &str) -> (r: (u32, u32))
    ensures
        r == size_in(text@),
{
    let pieces = split_char(text, 'x');
    if pieces.len() >= 2 {
        (parse_dimension(pieces[0]), parse_dimension(pieces[1]))
    } else {
        (5120, 2160)
    }
}

/// The width and height that a size name stands for, given the name's
/// lower-case form.
pub fn size_for(name: &str, lower: &str) -> (r: (u32, u32))
    ensures
        r == size_in(size_text(name@, lower@)),
{
    let text = if str_eq(lower, "hd") {
        "1920x1080"
    } else if str_eq(lower, "qhd") {
        "2560x1440"
    } else if str_eq(lower, "laptop") {
        "2560x1600"
    } else if str_eq(lower, "4k") {
        "3840x2160"
    } else if str_eq(lower, "ultrawide") {
        "5120x2160"
    } else {
        name
    };
    parse_dimensions(text)
}

impl Config {
    /// Every setting has its default value.
    pub open spec fn is_default(self) -> bool {
        &&& self.jwst.is_default()
        &&& self.remote.is_default()
        &&& self.generation.is_default()
        &&& self.wallust.is_default()
    }

    /// The path of the configuration file, given the user's configuration
    /// directory: `jwst-cosmos/config.toml` below it, or below `~/.config`
    /// where there is none.
    pub open spec fn config_path_below(dir: Option<Seq<char>>) -> Seq<char> {
        joined_path(
            joined_path(
                match dir {
                    Some(d) => d,
                    None => "~/.config"@,
                },
                "jwst-cosmos"@,
            ),
            "config.toml"@,
        )
    }

    /// The path of the configuration file, given the user's configuration
    /// directory.
    pub fn config_path_in(dir: Option<&str>) -> (r: String)
        ensures
            r@ == Config::config_path_below(
                match dir {
                    Some(d) => Some(d@),
                    None => None,
                },
            ),
    {
        let base = match dir {
            Some(d) => d,
            None => "~/.config",
        };
        let folder = join_path(base, "jwst-cosmos");
        join_path(folder.as_str(), "config.toml")
    }

    /// The default path of the configuration file, which goes by the user's
    /// configuration directory as the environment gives it.
    pub fn config_path() -> (r: String)
        ensures
            exists|dir: Option<Seq<char>>| r@ == Config::config_path_below(dir),
    {
        match config_dir() {
            Some(dir) => {
                let r = Config::config_path_in(Some(dir.as_str()));
                assert(r@ == Config::config_path_below(Some(dir@)));
                r
            },
            None => {
                let r = Config::config_path_in(None);
                assert(r@ == Config::config_path_below(None));
                r
            },
        }
    }

    /// The configuration to run with, given what the configuration file
    /// gave: nothing where there is no file, which means the defaults.
    pub fn load(stored: Option<Result<Config, ConfigError>>) -> (r: Result<Config, ConfigError>)
        ensures
            match stored {
                Some(found) => r == found,
                None => r matches Ok(config) && config.is_default(),
            },
    {
        match stored {
            Some(found) => found,
            None => Ok(Config::default()),
        }
    }

    /// Expands a leading `~/` of `path` to the home directory `home`.
    pub fn expand_path_with(&self, path: &str, home: Option<&str>) -> (r: String)
        ensures
            r@ == expanded(
                path@,
                match home {
                    Some(dir) => Some(dir@),
                    None => None,
                },
            ),
    {
        expand_with_home(path, home)
    }

    /// Expands a leading `~/` of `path` to the user's home directory as the
    /// environment gives it.
    pub fn expand_path(&self, path: &str) -> (r: String)
        ensures
            exists|home: Option<Seq<char>>| r@ == expanded(path@, home),
    {
        match home_dir() {
            Some(home) => {
                let r = expand_with_home(path, Some(home.as_str()));
                assert(r@ == expanded(path@, Some(home@)));
                r
            },
            None => {
                let r = expand_with_home(path, None);
                assert(r@ == expanded(path@, None));
                r
            },
        }
    }

    /// The wallpaper directory.
    pub fn wallpaper_dir(&self) -> (r: String)
        ensures
            exists|home: Option<Seq<char>>| r@ == expanded(self.jwst.wallpaper_dir@, home),
    {
        self.expand_path(self.jwst.wallpaper_dir.as_str())
    }

    /// The cache directory.
    pub fn cache_dir(&self) -> (r: String)
        ensures
            exists|home: Option<Seq<char>>| r@ == expanded(self.jwst.cache_dir@, home),
    {
        self.expand_path(self.jwst.cache_dir.as_str())
    }

    /// The directory of cached thumbnails: `thumbnails` below the cache
    /// directory.
    pub fn thumbnail_dir(&self) -> (r: String)
        ensures
            exists|home: Option<Seq<char>>|
                r@ == joined_path(expanded(self.jwst.cache_dir@, home), "thumbnails"@),
    {
        let cache = self.cache_dir();
        join_path(cache.as_str(), "thumbnails")
    }

    /// The API key that the content of the key file gives: the content
    /// without the white space around it.
    pub fn jwst_api_key(content: &str) -> (r: String)
        ensures
            r@ == trimmed(content@),
    {
        String::from_str(trim(content))
    }

    /// The width and height that a size stands for: the name of a preset in
    /// any case of letters, or a text of the form `<width>x<height>`.
    pub fn parse_size(&self, size_str: &str) -> (r: (u32, u32))
        ensures
            r == size_in(size_text(size_str@, lowercase(size_str@))),
    {
        let lower = to_lowercase(size_str);
        size_for(size_str, lower.as_str())
    }
}

} // verus!
