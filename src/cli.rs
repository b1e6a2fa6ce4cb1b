//! The command-line client's settings and the request it sends.
use crate::codec::{image_data_url, png_data_url_prefix, standard_encoding};
use crate::models::TransformRequest;
use vstd::prelude::*;

verus! {

/// The service the client talks to unless told otherwise.
pub const DEFAULT_URL: &'static str = "https://emobanana.guitaripod.workers.dev";

/// Where the transformed image is written unless told otherwise.
pub const DEFAULT_OUTPUT: &'static str = "transformed.png";

/// The client's command-line arguments.
#[derive(Debug, Clone, PartialEq, Eq)]
pub struct Args {
    /// Path of the image file to transform.
    pub image: String,
    /// The emoji whose expression the face should take.
    pub emoji: String,
    /// Base URL of the service.
    pub url: String,
    /// Path the transformed image is written to.
    pub output: String,
}

/// The client's settings.
#[derive(Debug, Clone, PartialEq, Eq)]
pub struct AppConfig {
    pub default_url: String,
}

impl Default for AppConfig {
    fn default() -> (r: AppConfig)
        ensures
            r.default_url@ == DEFAULT_URL@,
    {
        AppConfig { default_url: DEFAULT_URL.to_string() }
    }
}

impl AppConfig {
    /// Settings from the configured service URL, if one was found; else the
    /// default URL.
    pub fn from_settings(default_url: Option<String>) -> (r: AppConfig)
        ensures
            default_url is Some ==> r.default_url@ == default_url->0@,
            default_url is None ==> r.default_url@ == DEFAULT_URL@,
    {
        match default_url {
            Some(url) => AppConfig { default_url: url },
            None => AppConfig::default(),
        }
    }
}

/// The address of the transformation endpoint under `base_url`.
pub fn transform_endpoint(base_url: &str) -> (r: String)
    ensures
        r@ == base_url@ + "/transform"@,
{
    let mut r = base_url.to_string();
    r.append("/transform");
    r
}

impl Args {
    /// The request for the image file's contents `image_bytes`: the bytes as
    /// a PNG data URL, and the emoji.
    pub fn transform_request(&self, image_bytes: &[u8]) -> (r: TransformRequest)
        requires
            image_bytes@.len() <= usize::MAX / 2,
        ensures
            r.image@ == png_data_url_prefix() + standard_encoding(image_bytes@),
            r.emoji@ == self.emoji@,
    {
        TransformRequest { image: image_data_url(image_bytes), emoji: self.emoji.clone() }
    }
}

} // verus!
