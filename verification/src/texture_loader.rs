use vstd::prelude::*;
use vstd::string::StringSliceAdditionalSpecFns;
use vstd::utf8::encode_utf8;

use crate::c_string::{
    check_c_strings, fits_c_string, has_interior_nul, interior_nul_error, interior_nul_message,
    lemma_fits_c_string_iff_no_zero_byte, lemma_nul_free_ascii_fits, nul_free_ascii,
    text_has_interior_nul,
};
use crate::error::MetalKitError;
use crate::mesh::{lemma_present_items_len, present_items};
use crate::ffi::{
    TextureLoaderOptionsRaw, OPTION_ALLOCATE_MIPMAPS, OPTION_CUBE_LAYOUT, OPTION_GENERATE_MIPMAPS,
    OPTION_LOAD_AS_ARRAY, OPTION_ORIGIN, OPTION_SRGB, OPTION_TEXTURE_CPU_CACHE_MODE,
    OPTION_TEXTURE_STORAGE_MODE, OPTION_TEXTURE_USAGE,
};

pub mod texture_cpu_cache_mode;
pub mod texture_loader_cube_layout;
pub mod texture_loader_error;
pub mod texture_loader_option;
pub mod texture_loader_origin;

verus! {

/// Wraps a `MTKTextureLoaderError*` string constant.
#[derive(Debug, Clone, Copy, PartialEq, Eq)]
pub struct TextureLoaderError(&'static str);

impl View for TextureLoaderError {
    type V = Seq<char>;

    /// The wrapped constant's text.
    closed spec fn view(&self) -> Seq<char> {
        self.0@
    }
}

impl TextureLoaderError {
    /// Wraps `MTKTextureLoaderErrorDomain`.
    pub fn domain() -> (err: Self)
        ensures
            err@ == texture_loader_error::DOMAIN@,
    {
        TextureLoaderError(texture_loader_error::DOMAIN)
    }

    /// Wraps `MTKTextureLoaderErrorKey`.
    pub fn key() -> (err: Self)
        ensures
            err@ == texture_loader_error::KEY@,
    {
        TextureLoaderError(texture_loader_error::KEY)
    }

    /// Returns the wrapped `MTKTextureLoaderError*` string constant.
    pub fn as_str(self) -> (s: &'static str)
        ensures
            s@ == self@,
    {
        self.0
    }
}

/// Wraps an `MTKTextureLoaderOption*` dictionary key.
#[derive(Debug, Clone, Copy, PartialEq, Eq)]
pub struct TextureLoaderOptionKey(&'static str);

impl View for TextureLoaderOptionKey {
    type V = Seq<char>;

    /// The key's text.
    closed spec fn view(&self) -> Seq<char> {
        self.0@
    }
}

impl TextureLoaderOptionKey {
    /// Returns the wrapped `MTKTextureLoaderOption*` key.
    pub fn as_str(self) -> (s: &'static str)
        ensures
            s@ == self@,
    {
        self.0
    }
}

/// Wraps an `MTKTextureLoaderCubeLayout*` value.
#[derive(Debug, Clone, Copy, PartialEq, Eq)]
pub struct TextureLoaderCubeLayout(&'static str);

impl View for TextureLoaderCubeLayout {
    type V = Seq<char>;

    /// The layout's text.
    closed spec fn view(&self) -> Seq<char> {
        self.0@
    }
}

impl TextureLoaderCubeLayout {
    /// Every cube layout is a text of ASCII characters other than NUL.
    #[verifier::type_invariant]
    spec fn is_plain_text(self) -> bool {
        nul_free_ascii(self.0@)
    }

    /// Returns the wrapped `MTKTextureLoaderCubeLayout*` value: ASCII text without NUL.
    pub fn as_str(self) -> (s: &'static str)
        ensures
            s@ == self@,
            nul_free_ascii(s@),
    {
        proof {
            use_type_invariant(&self);
        }
        self.0
    }
}

/// Wraps an `MTKTextureLoaderOrigin*` value.
#[derive(Debug, Clone, Copy, PartialEq, Eq)]
pub struct TextureLoaderOrigin(&'static str);

impl View for TextureLoaderOrigin {
    type V = Seq<char>;

    /// The origin's text.
    closed spec fn view(&self) -> Seq<char> {
        self.0@
    }
}

impl TextureLoaderOrigin {
    /// Every origin is a text of ASCII characters other than NUL.
    #[verifier::type_invariant]
    spec fn is_plain_text(self) -> bool {
        nul_free_ascii(self.0@)
    }

    /// Returns the wrapped `MTKTextureLoaderOrigin*` value: ASCII text without NUL.
    pub fn as_str(self) -> (s: &'static str)
        ensures
            s@ == self@,
            nul_free_ascii(s@),
    {
        proof {
            use_type_invariant(&self);
        }
        self.0
    }
}

/// The display gamut that a named texture is loaded for (`NSDisplayGamut`).
#[derive(Debug, Clone, Copy, PartialEq, Eq, Structural)]
pub enum DisplayGamut {
    /// Mirrors `NSDisplayGamutSRGB`.
    SRGB,
    /// Mirrors `NSDisplayGamutP3`.
    P3,
}

/// The raw `NSDisplayGamut` value of a display gamut.
pub open spec fn display_gamut_raw(gamut: DisplayGamut) -> usize {
    match gamut {
        DisplayGamut::SRGB => 1,
        DisplayGamut::P3 => 2,
    }
}

impl DisplayGamut {
    /// The raw `NSDisplayGamut` value handed to MetalKit.
    pub fn to_raw(self) -> (value: usize)
        ensures
            value == display_gamut_raw(self),
    {
        match self {
            DisplayGamut::SRGB => 1,
            DisplayGamut::P3 => 2,
        }
    }
}

/// What a set of texture-loader options says: for each option, the value
/// it was set to, or `None` where it was left unset.
pub struct TextureLoaderOptionsView {
    pub generate_mipmaps: Option<bool>,
    pub allocate_mipmaps: Option<bool>,
    pub srgb: Option<bool>,
    pub texture_usage: Option<usize>,
    pub texture_storage_mode: Option<usize>,
    pub texture_cpu_cache_mode: Option<usize>,
    pub cube_layout: Option<Seq<char>>,
    pub origin: Option<Seq<char>>,
    pub load_as_array: Option<bool>,
}

/// Options in which nothing is set.
pub open spec fn unset_options() -> TextureLoaderOptionsView {
    TextureLoaderOptionsView {
        generate_mipmaps: None,
        allocate_mipmaps: None,
        srgb: None,
        texture_usage: None,
        texture_storage_mode: None,
        texture_cpu_cache_mode: None,
        cube_layout: None,
        origin: None,
        load_as_array: None,
    }
}

/// Collects option entries for `MTKTextureLoader` requests.
#[derive(Debug, Clone)]
pub struct TextureLoaderOptions {
    generate_mipmaps: Option<bool>,
    allocate_mipmaps: Option<bool>,
    srgb: Option<bool>,
    texture_usage: Option<usize>,
    texture_storage_mode: Option<usize>,
    texture_cpu_cache_mode: Option<usize>,
    cube_layout: Option<TextureLoaderCubeLayout>,
    origin: Option<TextureLoaderOrigin>,
    load_as_array: Option<bool>,
}

impl View for TextureLoaderOptions {
    type V = TextureLoaderOptionsView;

    closed spec fn view(&self) -> TextureLoaderOptionsView {
        TextureLoaderOptionsView {
            generate_mipmaps: self.generate_mipmaps,
            allocate_mipmaps: self.allocate_mipmaps,
            srgb: self.srgb,
            texture_usage: self.texture_usage,
            texture_storage_mode: self.texture_storage_mode,
            texture_cpu_cache_mode: self.texture_cpu_cache_mode,
            cube_layout: match self.cube_layout {
                Some(layout) => Some(layout@),
                None => None,
            },
            origin: match self.origin {
                Some(origin) => Some(origin@),
                None => None,
            },
            load_as_array: self.load_as_array,
        }
    }
}

impl TextureLoaderOptions {
    /// Creates an empty `MTKTextureLoader` options builder.
    pub fn new() -> (options: Self)
        ensures
            options@ == unset_options(),
    {
        TextureLoaderOptions {
            generate_mipmaps: None,
            allocate_mipmaps: None,
            srgb: None,
            texture_usage: None,
            texture_storage_mode: None,
            texture_cpu_cache_mode: None,
            cube_layout: None,
            origin: None,
            load_as_array: None,
        }
    }

    /// Sets `MTKTextureLoaderOptionGenerateMipmaps`.
    pub fn with_generate_mipmaps(self, value: bool) -> (options: Self)
        ensures
            options@ == (TextureLoaderOptionsView { generate_mipmaps: Some(value), ..self@ }),
    {
        let mut options = self;
        options.generate_mipmaps = Some(value);
        options
    }

    /// Sets `MTKTextureLoaderOptionAllocateMipmaps`.
    pub fn with_allocate_mipmaps(self, value: bool) -> (options: Self)
        ensures
            options@ == (TextureLoaderOptionsView { allocate_mipmaps: Some(value), ..self@ }),
    {
        let mut options = self;
        options.allocate_mipmaps = Some(value);
        options
    }

    /// Sets `MTKTextureLoaderOptionSRGB`.
    pub fn with_srgb(self, value: bool) -> (options: Self)
        ensures
            options@ == (TextureLoaderOptionsView { srgb: Some(value), ..self@ }),
    {
        let mut options = self;
        options.srgb = Some(value);
        options
    }

    /// Sets `MTKTextureLoaderOptionTextureUsage`.
    pub fn with_texture_usage(self, value: usize) -> (options: Self)
        ensures
            options@ == (TextureLoaderOptionsView { texture_usage: Some(value), ..self@ }),
    {
        let mut options = self;
        options.texture_usage = Some(value);
        options
    }

    /// Sets `MTKTextureLoaderOptionTextureStorageMode`.
    pub fn with_texture_storage_mode(self, value: usize) -> (options: Self)
        ensures
            options@ == (TextureLoaderOptionsView { texture_storage_mode: Some(value), ..self@ }),
    {
        let mut options = self;
        options.texture_storage_mode = Some(value);
        options
    }

    /// Sets `MTKTextureLoaderOptionTextureCPUCacheMode`.
    pub fn with_texture_cpu_cache_mode(self, value: usize) -> (options: Self)
        ensures
            options@ == (TextureLoaderOptionsView { texture_cpu_cache_mode: Some(value), ..self@ }),
    {
        let mut options = self;
        options.texture_cpu_cache_mode = Some(value);
        options
    }

    /// Sets `MTKTextureLoaderOptionCubeLayout`.
    pub fn with_cube_layout(self, value: TextureLoaderCubeLayout) -> (options: Self)
        ensures
            options@ == (TextureLoaderOptionsView { cube_layout: Some(value@), ..self@ }),
    {
        let mut options = self;
        options.cube_layout = Some(value);
        options
    }

    /// Sets `MTKTextureLoaderOptionOrigin`.
    pub fn with_origin(self, value: TextureLoaderOrigin) -> (options: Self)
        ensures
            options@ == (TextureLoaderOptionsView { origin: Some(value@), ..self@ }),
    {
        let mut options = self;
        options.origin = Some(value);
        options
    }

    /// Sets `MTKTextureLoaderOptionLoadAsArray`.
    pub fn with_load_as_array(self, value: bool) -> (options: Self)
        ensures
            options@ == (TextureLoaderOptionsView { load_as_array: Some(value), ..self@ }),
    {
        let mut options = self;
        options.load_as_array = Some(value);
        options
    }
}

impl Default for TextureLoaderOptions {
    /// The same empty builder as `new`.
    fn default() -> (options: Self)
        ensures
            options@ == unset_options(),
    {
        TextureLoaderOptions::new()
    }
}

/// `flag` where the option is set, else no bit.
pub open spec fn flag_when(set: bool, flag: u32) -> u32 {
    if set {
        flag
    } else {
        0
    }
}

/// The flag word of the bridge record for `o`: one bit for each option that is set.
pub open spec fn option_flags(o: TextureLoaderOptionsView) -> u32 {
    0u32 | flag_when(o.generate_mipmaps is Some, OPTION_GENERATE_MIPMAPS) | flag_when(
        o.allocate_mipmaps is Some,
        OPTION_ALLOCATE_MIPMAPS,
    ) | flag_when(o.srgb is Some, OPTION_SRGB) | flag_when(
        o.texture_usage is Some,
        OPTION_TEXTURE_USAGE,
    ) | flag_when(o.texture_storage_mode is Some, OPTION_TEXTURE_STORAGE_MODE) | flag_when(
        o.texture_cpu_cache_mode is Some,
        OPTION_TEXTURE_CPU_CACHE_MODE,
    ) | flag_when(o.cube_layout is Some, OPTION_CUBE_LAYOUT) | flag_when(
        o.origin is Some,
        OPTION_ORIGIN,
    ) | flag_when(o.load_as_array is Some, OPTION_LOAD_AS_ARRAY)
}

/// The byte that carries a boolean option: 1 for `true`, 0 for `false` or unset.
pub open spec fn bool_byte(value: Option<bool>) -> u8 {
    match value {
        Some(true) => 1,
        _ => 0,
    }
}

/// The word that carries a numeric option: its value, or 0 where unset.
pub open spec fn usize_word(value: Option<usize>) -> u64 {
    match value {
        Some(v) => v as u64,
        None => 0,
    }
}

/// Whether the C-string slot `slot` carries the text option `value`.
pub open spec fn text_slot(slot: Option<&'static str>, value: Option<Seq<char>>) -> bool {
    match (slot, value) {
        (Some(s), Some(v)) => s@ == v,
        (None, None) => true,
        _ => false,
    }
}

/// A set numeric option is carried unchanged, an unset one as 0; a set
/// boolean option is carried as 1 for `true` and 0 for `false`.
pub proof fn lemma_option_values_carried(v: usize, b: bool)
    ensures
        usize_word(Some(v)) == v as u64,
        usize_word(Some(v)) as int == v as int,
        usize_word(None) == 0,
        bool_byte(Some(b)) == (if b { 1u8 } else { 0u8 }),
        bool_byte(None) == 0,
{
}

/// Whether the bridge record `raw` carries exactly the options `o`.
pub open spec fn raw_encodes(raw: TextureLoaderOptionsRaw, o: TextureLoaderOptionsView) -> bool {
    &&& raw.flags == option_flags(o)
    &&& raw.generate_mipmaps == bool_byte(o.generate_mipmaps)
    &&& raw.allocate_mipmaps == bool_byte(o.allocate_mipmaps)
    &&& raw.srgb == bool_byte(o.srgb)
    &&& raw.load_as_array == bool_byte(o.load_as_array)
    &&& raw.texture_usage == usize_word(o.texture_usage)
    &&& raw.texture_storage_mode == usize_word(o.texture_storage_mode)
    &&& raw.texture_cpu_cache_mode == usize_word(o.texture_cpu_cache_mode)
    &&& text_slot(raw.cube_layout, o.cube_layout)
    &&& text_slot(raw.origin, o.origin)
}

/// Whether a text option, where set, can travel as a C string.
pub open spec fn text_option_fits(value: Option<Seq<char>>) -> bool {
    match value {
        Some(text) => fits_c_string(encode_utf8(text)),
        None => true,
    }
}

/// Whether the text options of `o` can travel as C strings.
pub open spec fn options_fit_c_strings(o: TextureLoaderOptionsView) -> bool {
    text_option_fits(o.cube_layout) && text_option_fits(o.origin)
}

fn flag_for(set: bool, flag: u32) -> (bit: u32)
    ensures
        bit == flag_when(set, flag),
{
    if set {
        flag
    } else {
        0
    }
}

fn byte_for(value: Option<bool>) -> (byte: u8)
    ensures
        byte == bool_byte(value),
{
    match value {
        Some(true) => 1,
        _ => 0,
    }
}

fn word_for(value: Option<usize>) -> (word: u64)
    ensures
        word == usize_word(value),
{
    match value {
        Some(v) => v as u64,
        None => 0,
    }
}

impl TextureLoaderOptions {
    /// Encodes these options as the bridge record. A text option (cube
    /// layout, then origin) holding a NUL byte would be refused; the
    /// library's layouts and origins hold none, so encoding always succeeds.
    pub fn to_raw(&self) -> (raw: Result<TextureLoaderOptionsRaw, MetalKitError>)
        ensures
            options_fit_c_strings(self@),
            raw is Ok,
            raw matches Ok(r) ==> raw_encodes(r, self@),
            raw matches Ok(r) ==> (self@.texture_usage matches Some(v) ==> r.texture_usage as int
                == v as int),
            raw matches Ok(r) ==> (self@.texture_storage_mode matches Some(v)
                ==> r.texture_storage_mode as int == v as int),
            raw matches Ok(r) ==> (self@.texture_cpu_cache_mode matches Some(v)
                ==> r.texture_cpu_cache_mode as int == v as int),
    {
        let cube_layout: Option<&'static str> = match self.cube_layout {
            Some(layout) => {
                let text = layout.as_str();
                proof {
                    lemma_nul_free_ascii_fits(text@);
                }
                if text_has_interior_nul(text) {
                    return Err(interior_nul_error("cube layout"));
                }
                Some(text)
            },
            None => None,
        };
        let origin: Option<&'static str> = match self.origin {
            Some(origin) => {
                let text = origin.as_str();
                proof {
                    lemma_nul_free_ascii_fits(text@);
                }
                if text_has_interior_nul(text) {
                    return Err(interior_nul_error("origin"));
                }
                Some(text)
            },
            None => None,
        };

        let mut raw = TextureLoaderOptionsRaw::empty();
        raw.flags = raw.flags | flag_for(self.generate_mipmaps.is_some(), OPTION_GENERATE_MIPMAPS);
        raw.flags = raw.flags | flag_for(self.allocate_mipmaps.is_some(), OPTION_ALLOCATE_MIPMAPS);
        raw.flags = raw.flags | flag_for(self.srgb.is_some(), OPTION_SRGB);
        raw.flags = raw.flags | flag_for(self.texture_usage.is_some(), OPTION_TEXTURE_USAGE);
        raw.flags = raw.flags | flag_for(
            self.texture_storage_mode.is_some(),
            OPTION_TEXTURE_STORAGE_MODE,
        );
        raw.flags = raw.flags | flag_for(
            self.texture_cpu_cache_mode.is_some(),
            OPTION_TEXTURE_CPU_CACHE_MODE,
        );
        raw.flags = raw.flags | flag_for(self.cube_layout.is_some(), OPTION_CUBE_LAYOUT);
        raw.flags = raw.flags | flag_for(self.origin.is_some(), OPTION_ORIGIN);
        raw.flags = raw.flags | flag_for(self.load_as_array.is_some(), OPTION_LOAD_AS_ARRAY);
        raw.generate_mipmaps = byte_for(self.generate_mipmaps);
        raw.allocate_mipmaps = byte_for(self.allocate_mipmaps);
        raw.srgb = byte_for(self.srgb);
        raw.load_as_array = byte_for(self.load_as_array);
        raw.texture_usage = word_for(self.texture_usage);
        raw.texture_storage_mode = word_for(self.texture_storage_mode);
        raw.texture_cpu_cache_mode = word_for(self.texture_cpu_cache_mode);
        raw.cube_layout = cube_layout;
        raw.origin = origin;
        Ok(raw)
    }
}

/// The options a request carries, by their view.
pub open spec fn options_view(options: Option<&TextureLoaderOptions>) -> Option<TextureLoaderOptionsView> {
    match options {
        Some(o) => Some(o@),
        None => None,
    }
}

/// Whether `raw` is the outcome of encoding the optional options `options`:
/// none stay none; set options are encoded.
pub open spec fn options_outcome(
    options: Option<TextureLoaderOptionsView>,
    raw: Result<Option<TextureLoaderOptionsRaw>, MetalKitError>,
) -> bool {
    match options {
        None => raw == Ok::<Option<TextureLoaderOptionsRaw>, MetalKitError>(None),
        Some(o) => raw matches Ok(r) && (r matches Some(r) && raw_encodes(r, o)),
    }
}

/// Encodes optional texture-loader options as the optional bridge record:
/// none stay none; set options are encoded by `TextureLoaderOptions::to_raw`.
pub fn raw_options(options: Option<&TextureLoaderOptions>) -> (raw: Result<
    Option<TextureLoaderOptionsRaw>,
    MetalKitError,
>)
    ensures
        options_outcome(options_view(options), raw),
{
    match options {
        Some(o) => match o.to_raw() {
            Ok(r) => Ok(Some(r)),
            Err(e) => Err(e),
        },
        None => Ok(None),
    }
}

/// Whether `request` is the outcome of preparing a request whose texts,
/// in the order they are checked, are `texts` (each named by its label):
/// the error for the first text that cannot travel as a C string, else the
/// encoded options.
pub open spec fn request_outcome(
    texts: Seq<(bool, Seq<char>)>,
    options: Option<TextureLoaderOptionsView>,
    request: Result<Option<TextureLoaderOptionsRaw>, MetalKitError>,
) -> bool
    decreases texts.len(),
{
    if texts.len() == 0 {
        options_outcome(options, request)
    } else if !texts[0].0 {
        request matches Err(e) && e@ == interior_nul_message(texts[0].1)
    } else {
        request_outcome(texts.drop_first(), options, request)
    }
}

/// Unfolds `request_outcome` for a request with one checked text.
proof fn lemma_request_outcome_one(
    a: (bool, Seq<char>),
    options: Option<TextureLoaderOptionsView>,
    request: Result<Option<TextureLoaderOptionsRaw>, MetalKitError>,
)
    ensures
        request_outcome(seq![a], options, request) == if !a.0 {
            request matches Err(e) && e@ == interior_nul_message(a.1)
        } else {
            options_outcome(options, request)
        },
{
    reveal_with_fuel(request_outcome, 2);
    assert(seq![a].drop_first() =~= Seq::<(bool, Seq<char>)>::empty());
}

/// Unfolds `request_outcome` for a request with two checked texts.
proof fn lemma_request_outcome_two(
    a: (bool, Seq<char>),
    b: (bool, Seq<char>),
    options: Option<TextureLoaderOptionsView>,
    request: Result<Option<TextureLoaderOptionsRaw>, MetalKitError>,
)
    ensures
        request_outcome(seq![a, b], options, request) == if !a.0 {
            request matches Err(e) && e@ == interior_nul_message(a.1)
        } else if !b.0 {
            request matches Err(e) && e@ == interior_nul_message(b.1)
        } else {
            options_outcome(options, request)
        },
{
    assert(seq![a, b].drop_first() =~= seq![b]);
    lemma_request_outcome_one(b, options, request);
}

/// Prepares a request that loads the texture at one path: checks that the
/// path can travel as a C string, then encodes the options.
pub fn prepare_url_request(path: &[u8], options: Option<&TextureLoaderOptions>) -> (request: Result<
    Option<TextureLoaderOptionsRaw>,
    MetalKitError,
>)
    ensures
        request_outcome(
            seq![(fits_c_string(path@), "path"@)],
            options_view(options),
            request,
        ),
        request is Ok <==> forall|j: int| 0 <= j < path@.len() ==> path@[j] != 0u8,
{
    let request = if has_interior_nul(path) {
        Err(interior_nul_error("path"))
    } else {
        raw_options(options)
    };
    proof {
        lemma_request_outcome_one((fits_c_string(path@), "path"@), options_view(options), request);
        lemma_fits_c_string_iff_no_zero_byte(path@);
    }
    request
}

/// Whether each of `texts` can travel as a C string.
pub open spec fn all_fit_c_strings(texts: Seq<Vec<u8>>) -> bool {
    forall|i: int| 0 <= i < texts.len() ==> fits_c_string(#[trigger] texts[i]@)
}

/// Prepares a request that loads the textures at several paths: checks that
/// every path can travel as a C string, then encodes the options.
pub fn prepare_urls_request(paths: &Vec<Vec<u8>>, options: Option<&TextureLoaderOptions>) -> (request:
    Result<Option<TextureLoaderOptionsRaw>, MetalKitError>)
    ensures
        request_outcome(
            seq![(all_fit_c_strings(paths@), "path"@)],
            options_view(options),
            request,
        ),
        request is Ok <==> forall|i: int, j: int|
            0 <= i < paths@.len() && 0 <= j < paths@[i]@.len() ==> paths@[i]@[j] != 0u8,
{
    let request = match check_c_strings(paths, "path") {
        Err(e) => Err(e),
        Ok(()) => raw_options(options),
    };
    proof {
        lemma_request_outcome_one(
            (all_fit_c_strings(paths@), "path"@),
            options_view(options),
            request,
        );
        lemma_all_fit_c_strings_iff_no_zero_byte(paths@);
    }
    request
}

/// A list of texts, of any length, can travel as C strings exactly when no
/// byte of any of them is 0.
pub proof fn lemma_all_fit_c_strings_iff_no_zero_byte(texts: Seq<Vec<u8>>)
    ensures
        all_fit_c_strings(texts) <==> forall|i: int, j: int|
            0 <= i < texts.len() && 0 <= j < texts[i]@.len() ==> texts[i]@[j] != 0u8,
{
    assert forall|i: int| 0 <= i < texts.len() implies (fits_c_string(#[trigger] texts[i]@) <==> forall|j: int|
        0 <= j < texts[i]@.len() ==> texts[i]@[j] != 0u8) by {
        lemma_fits_c_string_iff_no_zero_byte(texts[i]@);
    }
}

/// Whether an optional bundle path, where given, can travel as a C string.
pub open spec fn bundle_fits(bundle_path: Option<&[u8]>) -> bool {
    match bundle_path {
        Some(p) => fits_c_string(p@),
        None => true,
    }
}

/// No bundle path always fits; a bundle path of any length fits exactly
/// when none of its bytes is 0.
pub proof fn lemma_bundle_fits_iff_no_zero_byte(bundle_path: Option<&[u8]>)
    ensures
        bundle_path is None ==> bundle_fits(bundle_path),
        bundle_path matches Some(p) ==> (bundle_fits(bundle_path) <==> forall|j: int|
            0 <= j < p@.len() ==> p@[j] != 0u8),
{
    if let Some(p) = bundle_path {
        lemma_fits_c_string_iff_no_zero_byte(p@);
    }
}

/// Prepares a request that loads one named texture: checks the name, then
/// the bundle path where one is given, then encodes the options.
pub fn prepare_named_request(
    name: &str,
    bundle_path: Option<&[u8]>,
    options: Option<&TextureLoaderOptions>,
) -> (request: Result<Option<TextureLoaderOptionsRaw>, MetalKitError>)
    ensures
        request_outcome(
            seq![
                (fits_c_string(name.spec_bytes()), "asset name"@),
                (bundle_fits(bundle_path), "bundle path"@),
            ],
            options_view(options),
            request,
        ),
        request is Ok <==> (forall|j: int|
            0 <= j < name.spec_bytes().len() ==> name.spec_bytes()[j] != 0u8) && (
        bundle_path matches Some(p) ==> forall|j: int| 0 <= j < p@.len() ==> p@[j] != 0u8),
{
    let bundle_nul = match bundle_path {
        Some(path) => has_interior_nul(path),
        None => false,
    };
    let request = if text_has_interior_nul(name) {
        Err(interior_nul_error("asset name"))
    } else if bundle_nul {
        Err(interior_nul_error("bundle path"))
    } else {
        raw_options(options)
    };
    proof {
        lemma_request_outcome_two(
            (fits_c_string(name.spec_bytes()), "asset name"@),
            (bundle_fits(bundle_path), "bundle path"@),
            options_view(options),
            request,
        );
        lemma_fits_c_string_iff_no_zero_byte(name.spec_bytes());
        lemma_bundle_fits_iff_no_zero_byte(bundle_path);
    }
    request
}

/// Prepares a request that loads several named textures: checks every name,
/// then the bundle path where one is given, then encodes the options.
pub fn prepare_names_request(
    names: &Vec<Vec<u8>>,
    bundle_path: Option<&[u8]>,
    options: Option<&TextureLoaderOptions>,
) -> (request: Result<Option<TextureLoaderOptionsRaw>, MetalKitError>)
    ensures
        request_outcome(
            seq![(all_fit_c_strings(names@), "asset name"@), (bundle_fits(bundle_path), "bundle path"@)],
            options_view(options),
            request,
        ),
        request is Ok <==> (forall|i: int, j: int|
            0 <= i < names@.len() && 0 <= j < names@[i]@.len() ==> names@[i]@[j] != 0u8) && (
        bundle_path matches Some(p) ==> forall|j: int| 0 <= j < p@.len() ==> p@[j] != 0u8),
{
    let bundle_nul = match bundle_path {
        Some(path) => has_interior_nul(path),
        None => false,
    };
    let request = match check_c_strings(names, "asset name") {
        Err(e) => Err(e),
        Ok(()) => if bundle_nul {
            Err(interior_nul_error("bundle path"))
        } else {
            raw_options(options)
        },
    };
    proof {
        lemma_request_outcome_two(
            (all_fit_c_strings(names@), "asset name"@),
            (bundle_fits(bundle_path), "bundle path"@),
            options_view(options),
            request,
        );
        lemma_all_fit_c_strings_iff_no_zero_byte(names@);
        lemma_bundle_fits_iff_no_zero_byte(bundle_path);
    }
    request
}

/// The flag word has an option's bit set exactly when that option is set,
/// and no bit beyond the nine option bits.
pub proof fn lemma_option_flags_bits(o: TextureLoaderOptionsView)
    ensures
        (option_flags(o) & OPTION_GENERATE_MIPMAPS != 0) == (o.generate_mipmaps is Some),
        (option_flags(o) & OPTION_ALLOCATE_MIPMAPS != 0) == (o.allocate_mipmaps is Some),
        (option_flags(o) & OPTION_SRGB != 0) == (o.srgb is Some),
        (option_flags(o) & OPTION_TEXTURE_USAGE != 0) == (o.texture_usage is Some),
        (option_flags(o) & OPTION_TEXTURE_STORAGE_MODE != 0) == (o.texture_storage_mode is Some),
        (option_flags(o) & OPTION_TEXTURE_CPU_CACHE_MODE != 0) == (o.texture_cpu_cache_mode is Some),
        (option_flags(o) & OPTION_CUBE_LAYOUT != 0) == (o.cube_layout is Some),
        (option_flags(o) & OPTION_ORIGIN != 0) == (o.origin is Some),
        (option_flags(o) & OPTION_LOAD_AS_ARRAY != 0) == (o.load_as_array is Some),
        option_flags(o) < 0x200,
{
    let a = flag_when(o.generate_mipmaps is Some, OPTION_GENERATE_MIPMAPS);
    let b = flag_when(o.allocate_mipmaps is Some, OPTION_ALLOCATE_MIPMAPS);
    let c = flag_when(o.srgb is Some, OPTION_SRGB);
    let d = flag_when(o.texture_usage is Some, OPTION_TEXTURE_USAGE);
    let e = flag_when(o.texture_storage_mode is Some, OPTION_TEXTURE_STORAGE_MODE);
    let f = flag_when(o.texture_cpu_cache_mode is Some, OPTION_TEXTURE_CPU_CACHE_MODE);
    let g = flag_when(o.cube_layout is Some, OPTION_CUBE_LAYOUT);
    let h = flag_when(o.origin is Some, OPTION_ORIGIN);
    let i = flag_when(o.load_as_array is Some, OPTION_LOAD_AS_ARRAY);
    let w = 0u32 | a | b | c | d | e | f | g | h | i;
    assert(w == option_flags(o));
    assert({
        &&& (w & 0x1 != 0) == (a == 0x1)
        &&& (w & 0x2 != 0) == (b == 0x2)
        &&& (w & 0x4 != 0) == (c == 0x4)
        &&& (w & 0x8 != 0) == (d == 0x8)
        &&& (w & 0x10 != 0) == (e == 0x10)
        &&& (w & 0x20 != 0) == (f == 0x20)
        &&& (w & 0x40 != 0) == (g == 0x40)
        &&& (w & 0x80 != 0) == (h == 0x80)
        &&& (w & 0x100 != 0) == (i == 0x100)
        &&& w < 0x200
    }) by (bit_vector)
        requires
            a == 0 || a == 0x1,
            b == 0 || b == 0x2,
            c == 0 || c == 0x4,
            d == 0 || d == 0x8,
            e == 0 || e == 0x10,
            f == 0 || f == 0x20,
            g == 0 || g == 0x40,
            h == 0 || h == 0x80,
            i == 0 || i == 0x100,
            w == 0u32 | a | b | c | d | e | f | g | h | i,
    ;
}

/// Encoding loses no option: two option sets carried by the same bridge
/// record are the same option set.
pub proof fn lemma_raw_encoding_is_faithful(
    raw: TextureLoaderOptionsRaw,
    o1: TextureLoaderOptionsView,
    o2: TextureLoaderOptionsView,
)
    requires
        raw_encodes(raw, o1),
        raw_encodes(raw, o2),
    ensures
        o1 == o2,
{
    lemma_option_flags_bits(o1);
    lemma_option_flags_bits(o2);
    assert(o1.generate_mipmaps == o2.generate_mipmaps);
    assert(o1.allocate_mipmaps == o2.allocate_mipmaps);
    assert(o1.srgb == o2.srgb);
    assert(o1.load_as_array == o2.load_as_array);
    assert(o1.texture_usage == o2.texture_usage);
    assert(o1.texture_storage_mode == o2.texture_storage_mode);
    assert(o1.texture_cpu_cache_mode == o2.texture_cpu_cache_mode);
    assert(o1.cube_layout == o2.cube_layout);
    assert(o1.origin == o2.origin);
}

/// What a call that loads several textures hands back: one slot per
/// requested texture (empty where that texture failed to load) and the
/// error, if the call reported one.
#[derive(Debug)]
pub struct TextureLoaderArrayOutcome<T> {
    pub textures: Vec<Option<T>>,
    pub error: Option<MetalKitError>,
}

impl<T> TextureLoaderArrayOutcome<T> {
    /// Whether the call reported no error.
    pub fn is_success(&self) -> (success: bool)
        ensures
            success == self.error is None,
    {
        self.error.is_none()
    }

    /// How many of the requested textures were loaded.
    pub fn loaded_count(&self) -> (count: usize)
        ensures
            count == present_items(self.textures@).len(),
            count == self.textures@.filter(|o: Option<T>| o is Some).len(),
    {
        proof {
            lemma_present_items_len(self.textures@);
        }
        let mut count: usize = 0;
        let mut i: usize = 0;
        while i < self.textures.len()
            invariant
                0 <= i <= self.textures@.len(),
                count == present_items(self.textures@.take(i as int)).len(),
                count <= i,
            decreases self.textures@.len() - i,
        {
            assert(self.textures@.take(i + 1).drop_last() =~= self.textures@.take(i as int));
            if self.textures[i].is_some() {
                count = count + 1;
            }
            i = i + 1;
        }
        assert(self.textures@.take(self.textures@.len() as int) =~= self.textures@);
        count
    }
}

/// The error of a call that loads several textures: the message the call
/// reported; else, where the call handed back no result, `fallback`; else none.
pub open spec fn array_error_text(
    result_present: bool,
    message: Option<String>,
    fallback: Option<&str>,
) -> Option<Seq<char>> {
    match message {
        Some(m) => Some(m@),
        None => if !result_present {
            match fallback {
                Some(f) => Some(f@),
                None => None,
            }
        } else {
            None
        },
    }
}

/// Builds the outcome of a call that loads several textures from what the
/// bridge handed back: the slot of each requested texture (none at all
/// where the call handed back no result) and the reported message, with
/// `fallback` standing in for a missing result that came with no message.
pub fn texture_array_from_result_with_fallback<T>(
    result: Option<Vec<Option<T>>>,
    message: Option<String>,
    fallback: Option<&str>,
) -> (outcome: TextureLoaderArrayOutcome<T>)
    ensures
        outcome.textures@ == (match result {
            Some(slots) => slots@,
            None => Seq::empty(),
        }),
        outcome.error is Some == array_error_text(result is Some, message, fallback) is Some,
        outcome.error matches Some(err) ==> Some(err@) == array_error_text(
            result is Some,
            message,
            fallback,
        ),
{
    let result_present = result.is_some();
    let error = match message {
        Some(m) => Some(MetalKitError::new(m.as_str())),
        None => match fallback {
            Some(f) => if !result_present {
                Some(MetalKitError::new(f))
            } else {
                None
            },
            None => None,
        },
    };
    let textures = match result {
        Some(slots) => slots,
        None => Vec::new(),
    };
    TextureLoaderArrayOutcome { textures, error }
}

/// A call that loads several textures ends without an error exactly when it
/// reported no message and either handed back a result or has no fallback.
pub proof fn lemma_array_outcome_success(
    result_present: bool,
    message: Option<String>,
    fallback: Option<&str>,
)
    ensures
        array_error_text(result_present, message, fallback) is None <==> (message is None && (
        result_present || fallback is None)),
{
}

/// `texture_array_from_result_with_fallback` with no fallback message.
pub fn texture_array_from_result<T>(result: Option<Vec<Option<T>>>, message: Option<String>) -> (outcome:
    TextureLoaderArrayOutcome<T>)
    ensures
        outcome.textures@ == (match result {
            Some(slots) => slots@,
            None => Seq::empty(),
        }),
        outcome.error is Some == message is Some,
        outcome.error matches Some(err) ==> Some(err@) == array_error_text(
            result is Some,
            message,
            None,
        ),
{
    texture_array_from_result_with_fallback(result, message, None)
}

} // verus!
