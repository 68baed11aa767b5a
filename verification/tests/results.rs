use metalkit::c_string::{check_c_string, check_c_strings, has_interior_nul, interior_nul_error};
use metalkit::error::{json_parse_error, json_payload, object_or_error, take_error};
use metalkit::mesh::filter_present;
use metalkit::model_io_integration::{import_file_extension, next_asset_build_step};
use metalkit::texture_loader::{texture_array_from_result, texture_array_from_result_with_fallback};
use metalkit::{AssetBuildStep, MeshAssetConversion, MetalKitError};

#[test]
fn error_keeps_its_message() {
    let err = MetalKitError::new("failed to create MTKMesh");
    assert_eq!(err.message(), "failed to create MTKMesh");
    assert_eq!(err.to_string(), "failed to create MTKMesh");
}

#[test]
fn reported_message_wins_over_fallback() {
    assert_eq!(
        take_error(Some("file not found".to_string()), "failed to load texture from URL").message(),
        "file not found"
    );
    assert_eq!(
        take_error(None, "failed to load texture from URL").message(),
        "failed to load texture from URL"
    );
}

#[test]
fn object_or_error_hands_back_the_object() {
    let ok = object_or_error(Some(7u32), Some("ignored".to_string()), "fallback");
    assert_eq!(ok.expect("object"), 7);
    let err = object_or_error::<u32>(None, None, "failed to create MDLAsset").unwrap_err();
    assert_eq!(err.message(), "failed to create MDLAsset");
    let err = object_or_error::<u32>(None, Some("bad url".to_string()), "fallback").unwrap_err();
    assert_eq!(err.message(), "bad url");
}

#[test]
fn texture_array_outcomes() {
    let outcome = texture_array_from_result(Some(vec![Some(1u8), None]), Some("one failed".to_string()));
    assert_eq!(outcome.textures, vec![Some(1u8), None]);
    assert_eq!(outcome.loaded_count(), 1);
    assert!(!outcome.is_success());
    assert_eq!(outcome.error.as_ref().map(|e| e.to_string()), Some("one failed".to_string()));

    let outcome = texture_array_from_result(Some(vec![Some(1u8), Some(2u8)]), None);
    assert!(outcome.is_success());
    assert_eq!(outcome.loaded_count(), 2);

    let outcome = texture_array_from_result::<u8>(None, None);
    assert!(outcome.textures.is_empty());
    assert!(outcome.is_success());

    let outcome =
        texture_array_from_result_with_fallback::<u8>(None, None, Some("failed to load named textures"));
    assert!(outcome.textures.is_empty());
    assert_eq!(
        outcome.error.expect("fallback error").message(),
        "failed to load named textures"
    );

    let outcome = texture_array_from_result_with_fallback(
        Some(vec![None::<u8>]),
        None,
        Some("failed to load named textures"),
    );
    assert!(outcome.is_success());
    assert_eq!(outcome.loaded_count(), 0);
}

#[test]
fn missing_items_are_dropped_in_order() {
    assert_eq!(filter_present(vec![Some(3), None, Some(1), None, Some(2)]), vec![3, 1, 2]);
    assert!(filter_present::<u8>(vec![None, None]).is_empty());
    assert!(filter_present::<u8>(Vec::new()).is_empty());
}

#[test]
fn mesh_asset_conversion_from_bridge_result() {
    let conversion = MeshAssetConversion::from_bridge_result(
        Some((vec![Some("mesh-a"), None, Some("mesh-b")], vec![None, Some(10u8)])),
        None,
    )
    .expect("conversion");
    assert_eq!(conversion.meshes, vec!["mesh-a", "mesh-b"]);
    assert_eq!(conversion.source_meshes, vec![10u8]);

    let err = MeshAssetConversion::<u8, u8>::from_bridge_result(None, None).unwrap_err();
    assert_eq!(err.message(), "failed to create MTKMesh objects from MDLAsset");
    let err = MeshAssetConversion::<u8, u8>::from_bridge_result(None, Some("no device".to_string()))
        .unwrap_err();
    assert_eq!(err.message(), "no device");
}

#[test]
fn c_string_checks() {
    assert!(!has_interior_nul(b"asset"));
    assert!(has_interior_nul(b"as\0set"));
    assert!(has_interior_nul(b"\0"));
    assert!(!has_interior_nul(b""));
    assert!(check_c_string(b"POSITION", "attribute name").is_ok());
    assert_eq!(
        check_c_string(b"POS\0ITION", "attribute name").unwrap_err().message(),
        "attribute name contains an interior NUL byte"
    );
    assert!(check_c_strings(&vec![b"a".to_vec(), b"b".to_vec()], "path").is_ok());
    assert!(check_c_strings(&Vec::new(), "path").is_ok());
    assert!(check_c_strings(&vec![b"a".to_vec(), b"\0".to_vec()], "path").is_err());
    assert_eq!(
        interior_nul_error("texture name").message(),
        "texture name contains an interior NUL byte"
    );
}

#[test]
fn json_payload_errors() {
    assert_eq!(
        json_payload(Some("{}".to_string()), "MTLVertexDescriptor").expect("payload"),
        "{}"
    );
    assert_eq!(
        json_payload(None, "MTLVertexDescriptor").unwrap_err().message(),
        "missing MTLVertexDescriptor JSON payload"
    );
    assert_eq!(
        json_parse_error("MDLVertexDescriptor", "EOF while parsing").message(),
        "failed to parse MDLVertexDescriptor JSON: EOF while parsing"
    );
}

#[test]
fn import_extension_drops_leading_dots() {
    assert_eq!(import_file_extension(".obj"), Some("obj"));
    assert_eq!(import_file_extension("...usdz"), Some("usdz"));
    assert_eq!(import_file_extension("obj"), Some("obj"));
    assert_eq!(import_file_extension("a.b"), Some("a.b"));
    assert_eq!(import_file_extension("..."), Some(""));
    assert_eq!(import_file_extension(""), Some(""));
    assert_eq!(import_file_extension(".o\0bj"), None);
}

#[test]
fn asset_build_steps_stop_at_the_first_failure() {
    assert_eq!(next_asset_build_step(0, 2, true), AssetBuildStep::AddMesh(0));
    assert_eq!(next_asset_build_step(1, 2, true), AssetBuildStep::AddMesh(1));
    assert_eq!(next_asset_build_step(2, 2, true), AssetBuildStep::Done);
    assert_eq!(next_asset_build_step(1, 2, false), AssetBuildStep::GiveUp);
    assert_eq!(next_asset_build_step(0, 0, true), AssetBuildStep::Done);
}
