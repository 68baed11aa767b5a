use metalkit::ffi::{
    TextureLoaderOptionsRaw, OPTION_ALLOCATE_MIPMAPS, OPTION_CUBE_LAYOUT, OPTION_GENERATE_MIPMAPS,
    OPTION_LOAD_AS_ARRAY, OPTION_ORIGIN, OPTION_SRGB, OPTION_TEXTURE_CPU_CACHE_MODE,
    OPTION_TEXTURE_STORAGE_MODE, OPTION_TEXTURE_USAGE,
};
use metalkit::texture_loader::{
    prepare_named_request, prepare_names_request, prepare_url_request, prepare_urls_request,
    raw_options, texture_cpu_cache_mode, texture_loader_cube_layout, texture_loader_origin,
};
use metalkit::TextureLoaderOptions;

fn encode(options: &TextureLoaderOptions) -> TextureLoaderOptionsRaw {
    options.to_raw().expect("options encode")
}

#[test]
fn empty_options_encode_no_flags() {
    let raw = encode(&TextureLoaderOptions::new());
    assert_eq!(raw.flags, 0);
    assert_eq!(raw.generate_mipmaps, 0);
    assert_eq!(raw.srgb, 0);
    assert_eq!(raw.texture_usage, 0);
    assert!(raw.cube_layout.is_none());
    assert!(raw.origin.is_none());
    let default_raw = encode(&TextureLoaderOptions::default());
    assert_eq!(default_raw.flags, 0);
}

#[test]
fn srgb_and_mipmap_options_set_their_flags_and_bytes() {
    let options = TextureLoaderOptions::new()
        .with_srgb(true)
        .with_generate_mipmaps(false)
        .with_allocate_mipmaps(false);
    let raw = encode(&options);
    assert_eq!(raw.flags, OPTION_SRGB | OPTION_GENERATE_MIPMAPS | OPTION_ALLOCATE_MIPMAPS);
    assert_eq!(raw.flags, 0x7);
    assert_eq!(raw.srgb, 1);
    assert_eq!(raw.generate_mipmaps, 0);
    assert_eq!(raw.allocate_mipmaps, 0);
    assert_eq!(raw.load_as_array, 0);
}

#[test]
fn every_option_sets_its_own_bit() {
    let options = TextureLoaderOptions::new()
        .with_generate_mipmaps(true)
        .with_allocate_mipmaps(true)
        .with_srgb(false)
        .with_texture_usage(7)
        .with_texture_storage_mode(2)
        .with_texture_cpu_cache_mode(texture_cpu_cache_mode::WRITE_COMBINED)
        .with_cube_layout(texture_loader_cube_layout::vertical())
        .with_origin(texture_loader_origin::flipped_vertically())
        .with_load_as_array(true);
    let raw = encode(&options);
    assert_eq!(raw.flags, 0x1ff);
    for bit in [
        OPTION_GENERATE_MIPMAPS,
        OPTION_ALLOCATE_MIPMAPS,
        OPTION_SRGB,
        OPTION_TEXTURE_USAGE,
        OPTION_TEXTURE_STORAGE_MODE,
        OPTION_TEXTURE_CPU_CACHE_MODE,
        OPTION_CUBE_LAYOUT,
        OPTION_ORIGIN,
        OPTION_LOAD_AS_ARRAY,
    ] {
        assert_ne!(raw.flags & bit, 0);
    }
    assert_eq!(raw.generate_mipmaps, 1);
    assert_eq!(raw.allocate_mipmaps, 1);
    assert_eq!(raw.srgb, 0);
    assert_eq!(raw.load_as_array, 1);
    assert_eq!(raw.texture_usage, 7);
    assert_eq!(raw.texture_storage_mode, 2);
    assert_eq!(raw.texture_cpu_cache_mode, 1);
    assert_eq!(raw.cube_layout, Some("MTKTextureLoaderCubeLayoutVertical"));
    assert_eq!(raw.origin, Some("MTKTextureLoaderOriginFlippedVertically"));
}

#[test]
fn a_later_setting_replaces_an_earlier_one() {
    let options = TextureLoaderOptions::new()
        .with_texture_usage(3)
        .with_origin(texture_loader_origin::top_left())
        .with_texture_usage(9)
        .with_origin(texture_loader_origin::bottom_left());
    let raw = encode(&options);
    assert_eq!(raw.flags, OPTION_TEXTURE_USAGE | OPTION_ORIGIN);
    assert_eq!(raw.texture_usage, 9);
    assert_eq!(raw.origin, Some("MTKTextureLoaderOriginBottomLeft"));
}

#[test]
fn absent_options_stay_absent() {
    assert!(raw_options(None).expect("no options").is_none());
    let options = TextureLoaderOptions::new().with_load_as_array(false);
    let raw = raw_options(Some(&options)).expect("options").expect("record");
    assert_eq!(raw.flags, OPTION_LOAD_AS_ARRAY);
    assert_eq!(raw.load_as_array, 0);
}

#[test]
fn requests_check_their_texts_in_order() {
    let options = TextureLoaderOptions::new().with_srgb(true);
    let ok = prepare_url_request(b"/tmp/icon.png", Some(&options)).expect("url request");
    assert_eq!(ok.expect("record").flags, OPTION_SRGB);

    let err = prepare_url_request(b"/tmp/ic\0on.png", Some(&options)).unwrap_err();
    assert_eq!(err.to_string(), "path contains an interior NUL byte");

    let paths = vec![b"/a.png".to_vec(), b"/b\0.png".to_vec()];
    let err = prepare_urls_request(&paths, None).unwrap_err();
    assert_eq!(err.message(), "path contains an interior NUL byte");
    let paths = vec![b"/a.png".to_vec(), b"/b.png".to_vec()];
    assert!(prepare_urls_request(&paths, None).expect("urls request").is_none());

    let err = prepare_named_request("icon\0", Some(b"/bundle\0"), None).unwrap_err();
    assert_eq!(err.message(), "asset name contains an interior NUL byte");
    let err = prepare_named_request("icon", Some(b"/bundle\0"), None).unwrap_err();
    assert_eq!(err.message(), "bundle path contains an interior NUL byte");
    assert!(prepare_named_request("icon", None, None).expect("named").is_none());

    let names = vec![b"missing-a".to_vec(), b"missing\0b".to_vec()];
    let err = prepare_names_request(&names, None, None).unwrap_err();
    assert_eq!(err.message(), "asset name contains an interior NUL byte");
    let names = vec![b"missing-a".to_vec(), b"missing-b".to_vec()];
    let err = prepare_names_request(&names, Some(b"\0"), None).unwrap_err();
    assert_eq!(err.message(), "bundle path contains an interior NUL byte");
    let raw = prepare_names_request(&names, Some(b"/bundle"), Some(&options))
        .expect("names request")
        .expect("record");
    assert_eq!(raw.srgb, 1);
}

#[test]
fn different_options_encode_to_different_records() {
    let unset = encode(&TextureLoaderOptions::new());
    let srgb_off = encode(&TextureLoaderOptions::new().with_srgb(false));
    let srgb_on = encode(&TextureLoaderOptions::new().with_srgb(true));
    let usage_zero = encode(&TextureLoaderOptions::new().with_texture_usage(0));
    assert_ne!(unset.flags, srgb_off.flags);
    assert_eq!(srgb_off.flags, srgb_on.flags);
    assert_ne!(srgb_off.srgb, srgb_on.srgb);
    assert_eq!(usage_zero.texture_usage, unset.texture_usage);
    assert_ne!(usage_zero.flags, unset.flags);
}
