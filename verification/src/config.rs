//! Configuration of a lock session.

use vstd::prelude::*;

verus! {

/// The value of `lock` where a configuration file does not set it.
pub fn _true() -> (b: bool)
    ensures
        b,
{
    true
}

/// What the configuration file holds.
#[derive(Debug, Clone)]
pub struct Config {
    pub lock: bool,
    pub shader: Option<String>,
    pub background: Option<String>,
}

impl Default for Config {
    fn default() -> (c: Self)
        ensures
            c.lock,
            c.shader is None,
            c.background is None,
    {
        Self { lock: _true(), shader: None, background: None }
    }
}

/// What the command line holds.
#[derive(Debug, Clone)]
pub struct Cli {
    pub config: Option<String>,
    pub shader: Option<String>,
    pub background: Option<String>,
    pub screensave: Option<bool>,
    pub daemonize: bool,
    pub logfile: Option<String>,
}

/// Whether the session locks: the command line's `screensave`, negated,
/// where it is given, else the configuration's `lock`.
pub open spec fn lock_mode_of(screensave: Option<bool>, config_lock: bool) -> bool {
    match screensave {
        Some(s) => !s,
        None => config_lock,
    }
}

/// The first of two optional texts that is present.
pub open spec fn first_of(first: Option<String>, second: Option<String>) -> Option<String> {
    match first {
        Some(_) => first,
        None => second,
    }
}

/// Where the session's inputs come from, the command line before the
/// configuration file.
pub struct Sources {
    pub shader: Option<String>,
    pub background: Option<String>,
    pub lock_mode: bool,
}

/// Merges command line and configuration file.
pub fn sources(cli: Cli, config: Config) -> (s: Sources)
    ensures
        s.shader == first_of(cli.shader, config.shader),
        s.background == first_of(cli.background, config.background),
        s.lock_mode == lock_mode_of(cli.screensave, config.lock),
{
    let shader = match cli.shader {
        Some(p) => Some(p),
        None => config.shader,
    };
    let background = match cli.background {
        Some(p) => Some(p),
        None => config.background,
    };
    let lock_mode = match cli.screensave {
        Some(s) => !s,
        None => config.lock,
    };
    Sources { shader, background, lock_mode }
}

/// A decoded image: rows of pixels, four bytes each, red, green, blue and
/// alpha.
#[derive(Debug)]
pub struct Background {
    pub width: u32,
    pub height: u32,
    pub pixels: Vec<u8>,
}

/// How the texels of a texture are stored.
#[derive(Debug, Clone, Copy, PartialEq, Eq, Structural)]
pub enum TextureFormat {
    /// Red, green, blue and alpha, eight bits each, the colours in sRGB.
    Rgba8UnormSrgb,
}

/// The texture that a background is uploaded to.
#[derive(Debug, Clone, Copy, PartialEq, Eq, Structural)]
pub struct TextureLayout {
    pub width: u32,
    pub height: u32,
    pub format: TextureFormat,
    /// Whether shaders may sample the texture.
    pub texture_binding: bool,
    /// Whether data may be copied to the texture.
    pub copy_dst: bool,
    /// The levels of detail: one, so no mipmaps.
    pub mip_level_count: u32,
    /// The samples per texel.
    pub sample_count: u32,
}

/// `image::load_from_memory`, then `DynamicImage::to_rgba8`: the image that
/// the bytes encode, as eight-bit RGBA, or `None` where no decoder takes
/// the bytes. Which bytes decode, and to which pixels, is left open: the
/// pixels of a JPEG depend on the routines that the decoder finds on the
/// machine. Whatever comes out holds four bytes for each pixel.
#[verifier::external_body]
fn decode_rgba8(bytes: &Vec<u8>) -> (r: Option<(u32, u32, Vec<u8>)>)
    ensures
        r matches Some((w, h, p)) ==> p@.len() == w * h * 4,
{
    match image::load_from_memory(bytes) {
        Ok(img) => {
            let rgba = img.to_rgba8();
            Some((rgba.width(), rgba.height(), rgba.into_raw()))
        },
        Err(_) => None,
    }
}

impl Background {
    /// There are four bytes for each pixel.
    pub open spec fn wf(self) -> bool {
        self.pixels@.len() == self.width * self.height * 4
    }

    /// The texture for a background of a width and height: of that size,
    /// in sRGB, to be sampled and copied to, without mipmaps.
    pub open spec fn texture_of(width: u32, height: u32) -> TextureLayout {
        TextureLayout {
            width,
            height,
            format: TextureFormat::Rgba8UnormSrgb,
            texture_binding: true,
            copy_dst: true,
            mip_level_count: 1,
            sample_count: 1,
        }
    }

    /// The texture that the background is uploaded to.
    pub fn texture(&self) -> (t: TextureLayout)
        ensures
            t == Background::texture_of(self.width, self.height),
    {
        TextureLayout {
            width: self.width,
            height: self.height,
            format: TextureFormat::Rgba8UnormSrgb,
            texture_binding: true,
            copy_dst: true,
            mip_level_count: 1,
            sample_count: 1,
        }
    }

    /// The background of a decoded image, where the image has four bytes
    /// for each pixel.
    pub fn from_decoded(decoded: Option<(u32, u32, Vec<u8>)>) -> (r: Option<Background>)
        ensures
            match r {
                Some(b) => b.wf() && decoded == Some((b.width, b.height, b.pixels)),
                None => decoded matches Some((w, h, p)) ==> p@.len() != w * h * 4,
            },
    {
        match decoded {
            Some((width, height, pixels)) => {
                assert(width * height * 4 <= 0xffff_ffff * 0xffff_ffff * 4) by (nonlinear_arith)
                    requires
                        0 <= width <= 0xffff_ffff,
                        0 <= height <= 0xffff_ffff,
                ;
                let want: u128 = width as u128 * height as u128 * 4;
                if pixels.len() as u128 == want {
                    Some(Background { width, height, pixels })
                } else {
                    None
                }
            },
            None => None,
        }
    }

    /// Decodes an image file's bytes into a background. Whether the bytes
    /// decode is the decoder's to say; a background that comes out is well
    /// formed.
    pub fn decode(bytes: &Vec<u8>) -> (r: Option<Background>)
        ensures
            r matches Some(b) ==> b.wf(),
    {
        match decode_rgba8(bytes) {
            Some((width, height, pixels)) => Some(Background { width, height, pixels }),
            None => None,
        }
    }
}

/// The settings of a session; they do not change once it has started.
#[derive(Debug)]
pub struct Settings {
    pub lock_mode: bool,
    pub shader_source: String,
    pub background: Background,
}

/// The settings for the chosen mode, the fragment shader's text and the
/// decoded background.
pub fn settings(sources: &Sources, shader_source: String, background: Background) -> (s: Settings)
    ensures
        s.lock_mode == sources.lock_mode,
        s.shader_source == shader_source,
        s.background == background,
{
    Settings { lock_mode: sources.lock_mode, shader_source, background }
}

} // verus!
