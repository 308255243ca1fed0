//! Query-surface tests: a face over an in-memory native model, driven
//! through every public operation.

use font_face::face::{default_rendering_params, FontFace, FontFile};
use font_face::metrics::{FontMetrics, GlyphMetrics};
use font_face::native::{CmapEntry, FontTable, NativeFace, MISSING_GLYPH_INDEX};
use font_face::policy::{FatalError, RENDERING_MODE_NATURAL_SYMMETRIC, STATUS_SUCCESS};

const TAG_CMAP: u32 = 0x636d6170;
const TAG_GLYF: u32 = 0x676c7966;

fn sample_metrics() -> FontMetrics {
    FontMetrics {
        design_units_per_em: 2048,
        ascent: 1638,
        descent: 410,
        line_gap: 67,
        cap_height: 1434,
        x_height: 1024,
        underline_position: -154,
        underline_thickness: 102,
        strikethrough_position: 512,
        strikethrough_thickness: 102,
    }
}

fn gm(advance: u32, lsb: i32) -> GlyphMetrics {
    GlyphMetrics {
        left_side_bearing: lsb,
        advance_width: advance,
        right_side_bearing: 10,
        top_side_bearing: 20,
        advance_height: 2048,
        bottom_side_bearing: 30,
        vertical_origin_y: 1638,
    }
}

fn sample_native() -> NativeFace {
    NativeFace {
        metrics: sample_metrics(),
        face_type: 2,
        face_index: 0,
        simulations: 0,
        glyph_count: 3,
        cmap: vec![
            CmapEntry { code_point: 0x41, glyph: 1 },
            CmapEntry { code_point: 0x42, glyph: 2 },
        ],
        tables: vec![FontTable { tag: TAG_CMAP, bytes: vec![0, 1, 2, 3, 4] }],
        glyph_records: vec![gm(1000, 0), gm(1100, 5), gm(1200, 7)],
        sideways_glyph_records: vec![gm(2048, 1), gm(2048, 2), gm(2048, 3)],
        files: vec![101, 102],
        create_status: STATUS_SUCCESS,
        rendering_status: STATUS_SUCCESS,
        rendering_mode: 4,
        table_contexts_acquired: 0,
        table_contexts_released: 0,
        file_refs_acquired: 0,
        file_refs_released: 0,
    }
}

#[test]
fn metrics_is_cached_and_equals_requery() {
    let face = FontFace::take(sample_native());
    let first = *face.metrics();
    let second = *face.metrics();
    assert_eq!(first, second);
    assert_eq!(first, face.get_metrics());
    assert_eq!(first, sample_metrics());
}

#[test]
fn glyph_count_is_reported() {
    let face = FontFace::take(sample_native());
    assert_eq!(face.get_glyph_count(), 3);
}

#[test]
fn glyph_indices_match_input_length_and_positions() {
    let face = FontFace::take(sample_native());
    let out = face.get_glyph_indices(&vec![0x42, 0x41, 0x42, 0x41]);
    assert_eq!(out.len(), 4);
    assert_eq!(out, vec![2, 1, 2, 1]);
    // reordering the inputs reorders the outputs and changes nothing else
    let reordered = face.get_glyph_indices(&vec![0x41, 0x42, 0x41, 0x42]);
    assert_eq!(reordered, vec![1, 2, 1, 2]);
    let empty = face.get_glyph_indices(&Vec::new());
    assert_eq!(empty.len(), 0);
}

#[test]
fn unmapped_code_point_yields_missing_glyph_sentinel() {
    let face = FontFace::take(sample_native());
    let out = face.get_glyph_indices(&vec![0x4242]);
    assert_eq!(out, vec![MISSING_GLYPH_INDEX]);
}

#[test]
fn valid_and_out_of_range_code_points() {
    let face = FontFace::take(sample_native());
    let out = face.get_glyph_indices(&vec![0x41, 0x10FFFF]);
    assert_eq!(out.len(), 2);
    assert_eq!(out[0], 1);
    assert_eq!(out[1], MISSING_GLYPH_INDEX);
}

#[test]
fn design_glyph_metrics_are_position_correlated() {
    let face = FontFace::take(sample_native());
    let out = face.get_design_glyph_metrics(&vec![2, 0], false);
    assert_eq!(out.len(), 2);
    assert_eq!(out[0], gm(1200, 7));
    assert_eq!(out[1], gm(1000, 0));
}

#[test]
fn sideways_selects_vertical_records() {
    let face = FontFace::take(sample_native());
    let out = face.get_design_glyph_metrics(&vec![1], true);
    assert_eq!(out, vec![gm(2048, 2)]);
}

#[test]
fn out_of_range_glyph_index_yields_zero_record() {
    let face = FontFace::take(sample_native());
    let out = face.get_design_glyph_metrics(&vec![3], false);
    assert_eq!(out[0].advance_width, 0);
    assert_eq!(out[0].left_side_bearing, 0);
}

#[test]
fn present_table_bytes_match_native_span() {
    let mut face = FontFace::take(sample_native());
    let table = face.get_font_table(TAG_CMAP);
    assert_eq!(table, Some(vec![0, 1, 2, 3, 4]));
}

#[test]
fn absent_table_is_an_absence_value_without_leak() {
    let mut face = FontFace::take(sample_native());
    for _ in 0..8 {
        assert_eq!(face.get_font_table(TAG_GLYF), None);
    }
    // no context was acquired, none released, nothing grew
    assert_eq!(face.native().table_contexts_acquired, 0);
    assert_eq!(face.native().table_contexts_released, 0);
}

#[test]
fn table_context_released_exactly_once_per_call() {
    let mut face = FontFace::take(sample_native());
    for round in 1..=5u64 {
        let table = face.get_font_table(TAG_CMAP);
        assert!(table.is_some());
        assert_eq!(face.native().table_contexts_acquired, round);
        assert_eq!(face.native().table_contexts_released, round);
    }
    let _ = face.get_font_table(TAG_GLYF);
    assert_eq!(face.native().table_contexts_acquired, 5);
    assert_eq!(face.native().table_contexts_released, 5);
}

#[test]
fn get_files_transfers_one_reference_per_file() {
    let mut face = FontFace::take(sample_native());
    let files: Vec<FontFile> = face.get_files();
    assert_eq!(files.len(), 2);
    assert_eq!(files[0].raw_id(), 101);
    assert_eq!(files[1].raw_id(), 102);
    // each acquired reference was transferred into a FontFile, none leaked,
    // none double-released
    assert_eq!(face.native().file_refs_acquired, 2);
    assert_eq!(face.native().file_refs_released, 0);
}

#[test]
fn get_files_may_report_zero_files() {
    let mut native = sample_native();
    native.files = Vec::new();
    let mut face = FontFace::take(native);
    assert_eq!(face.get_files().len(), 0);
    assert_eq!(face.native().file_refs_acquired, 0);
}

#[test]
fn create_with_simulations_releases_every_file_reference() {
    let mut face = FontFace::take(sample_native());
    let derived = face.create_font_face_with_simulations(1);
    assert!(derived.is_ok());
    assert_eq!(face.native().file_refs_acquired, 2);
    assert_eq!(face.native().file_refs_released, 2);
}

#[test]
fn create_failure_is_fatal_and_still_releases_files() {
    let mut native = sample_native();
    native.create_status = -2003283965;
    let mut face = FontFace::take(native);
    let derived = face.create_font_face_with_simulations(1);
    assert_eq!(
        derived.unwrap_err(),
        FatalError::FaceCreationFailed { status: -2003283965 }
    );
    // the enumerated references were released even though creation failed
    assert_eq!(face.native().file_refs_acquired, 2);
    assert_eq!(face.native().file_refs_released, 2);
}

#[test]
fn round_trip_derived_face_is_queryable() {
    let mut face = FontFace::take(sample_native());
    let files = face.get_files();
    assert_eq!(files.len(), 2);
    let derived = face.create_font_face_with_simulations(2).unwrap();
    // the derived face carries the simulation flags and the same files
    assert_eq!(derived.native().simulations, 2);
    assert_eq!(derived.native().files, vec![101, 102]);
    assert_eq!(derived.native().face_index, face.native().face_index);
    assert_eq!(derived.native().face_type, face.native().face_type);
    // its metrics are independently queryable
    let m = derived.get_metrics();
    assert_eq!(m, *derived.metrics());
    assert_eq!(derived.get_glyph_indices(&vec![0x41]), vec![1]);
}

#[test]
fn rendering_mode_uses_native_reply_on_success() {
    let face = FontFace::take(sample_native());
    let params = default_rendering_params();
    assert_eq!(face.get_recommended_rendering_mode(0, &params), 4);
    assert_eq!(face.get_recommended_rendering_mode_default_params(0), 4);
}

#[test]
fn rendering_mode_falls_back_on_failure() {
    let mut native = sample_native();
    native.rendering_status = -1;
    let face = FontFace::take(native);
    let params = default_rendering_params();
    assert_eq!(
        face.get_recommended_rendering_mode(1, &params),
        RENDERING_MODE_NATURAL_SYMMETRIC
    );
    assert_eq!(
        face.get_recommended_rendering_mode_default_params(1),
        RENDERING_MODE_NATURAL_SYMMETRIC
    );
}

#[test]
fn font_file_takes_ownership_of_raw_reference() {
    let file = FontFile::take(77);
    assert_eq!(file.raw_id(), 77);
}
