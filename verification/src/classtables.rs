//! The built-in class tables: the classes every game has, and those of each release.
use vstd::prelude::*;
use crate::classes::{ClassRegistry, PrettyParser, TagClass};
use crate::version::{DestinyVersion, GameVersion};

verus! {

/// A class as plain values: id, name, element size, formatter and whether its arrays block
/// scanning.
pub open spec fn class_row(c: TagClass) -> (u32, Seq<char>, Option<usize>, Option<PrettyParser>, bool) {
    (c.id, c.name@, c.size, c.pretty_parser, c.block_tags)
}

/// Classes as plain values.
pub open spec fn class_rows(cs: Seq<TagClass>) -> Seq<(u32, Seq<char>, Option<usize>, Option<PrettyParser>, bool)> {
    cs.map_values(|c: TagClass| class_row(c))
}

fn class(id: u32, name: &str, size: Option<usize>, pretty_parser: Option<PrettyParser>, block_tags: bool) -> (r: TagClass)
    ensures
        class_row(r) == (id, name@, size, pretty_parser, block_tags),
{
    TagClass { id, name: String::from_str(name), size, pretty_parser, block_tags }
}

/// The classes of every game.
pub open spec fn classes_base_rows() -> Seq<(u32, Seq<char>, Option<usize>, Option<PrettyParser>, bool)> {
    seq![
        (0x80800000u32, "s_bungie_script"@, None, None, false),
        (0x80800005u32, "char"@, Some(1usize), Some(PrettyParser::Hex), true),
        (0x80800007u32, "u32"@, Some(4usize), Some(PrettyParser::RawHexU32), true),
        (0x80800009u32, "byte"@, Some(1usize), Some(PrettyParser::RawHexU8), true),
        (0x8080000Au32, "u16"@, Some(2usize), Some(PrettyParser::RawHexU16), true),
        (0x80800014u32, "taghash"@, Some(4usize), Some(PrettyParser::TagHash), false),
        (0x80800070u32, "f32"@, Some(4usize), Some(PrettyParser::RawF32), true),
        (0x80800090u32, "vec4"@, Some(16usize), Some(PrettyParser::Vec4), true),
    ]
}

/// The classes of every game.
#[verifier::rlimit(50)]
pub fn classes_base() -> (r: Vec<TagClass>)
    ensures
        class_rows(r@) == classes_base_rows(),
{
    let mut v: Vec<TagClass> = Vec::new();
    v.push(class(0x80800000, "s_bungie_script", None, None, false));
    v.push(class(0x80800005, "char", Some(1usize), Some(PrettyParser::Hex), true));
    v.push(class(0x80800007, "u32", Some(4usize), Some(PrettyParser::RawHexU32), true));
    v.push(class(0x80800009, "byte", Some(1usize), Some(PrettyParser::RawHexU8), true));
    v.push(class(0x8080000A, "u16", Some(2usize), Some(PrettyParser::RawHexU16), true));
    v.push(class(0x80800014, "taghash", Some(4usize), Some(PrettyParser::TagHash), false));
    v.push(class(0x80800070, "f32", Some(4usize), Some(PrettyParser::RawF32), true));
    v.push(class(0x80800090, "vec4", Some(16usize), Some(PrettyParser::Vec4), true));
    assert(class_rows(v@) =~= classes_base_rows());
    v
}

/// The classes of the pre-release Destiny packages.
pub open spec fn classes_devalpha_rows() -> Seq<(u32, Seq<char>, Option<usize>, Option<PrettyParser>, bool)> {
    seq![
        (0x808004A8u32, "s_localized_strings"@, None, None, false),
        (0x808004A6u32, "s_localized_strings_data"@, None, None, false),
    ]
}

/// The classes of the pre-release Destiny packages.
#[verifier::rlimit(50)]
pub fn classes_devalpha() -> (r: Vec<TagClass>)
    ensures
        class_rows(r@) == classes_devalpha_rows(),
{
    let mut v: Vec<TagClass> = Vec::new();
    v.push(class(0x808004A8, "s_localized_strings", None, None, false));
    v.push(class(0x808004A6, "s_localized_strings_data", None, None, false));
    assert(class_rows(v@) =~= classes_devalpha_rows());
    v
}

/// The classes of Destiny: The Taken King.
pub open spec fn classes_ttk_rows() -> Seq<(u32, Seq<char>, Option<usize>, Option<PrettyParser>, bool)> {
    seq![
        (0x8080035Au32, "s_localized_strings"@, None, None, false),
        (0x80800734u32, "s_entity"@, None, None, false),
        (0x80800861u32, "s_entity_resource"@, None, None, false),
        (0x808008BEu32, "s_localized_strings_data"@, None, None, false),
        (0x80801AD0u32, "s_scope"@, None, None, false),
        (0x80801B4Cu32, "s_technique"@, None, None, false),
    ]
}

/// The classes of Destiny: The Taken King.
#[verifier::rlimit(50)]
pub fn classes_ttk() -> (r: Vec<TagClass>)
    ensures
        class_rows(r@) == classes_ttk_rows(),
{
    let mut v: Vec<TagClass> = Vec::new();
    v.push(class(0x8080035A, "s_localized_strings", None, None, false));
    v.push(class(0x80800734, "s_entity", None, None, false));
    v.push(class(0x80800861, "s_entity_resource", None, None, false));
    v.push(class(0x808008BE, "s_localized_strings_data", None, None, false));
    v.push(class(0x80801AD0, "s_scope", None, None, false));
    v.push(class(0x80801B4C, "s_technique", None, None, false));
    assert(class_rows(v@) =~= classes_ttk_rows());
    v
}

/// The classes of Destiny: Rise of Iron (and the first look alpha).
pub open spec fn classes_roi_rows() -> Seq<(u32, Seq<char>, Option<usize>, Option<PrettyParser>, bool)> {
    seq![
        (0x8080035Au32, "s_localized_strings"@, None, None, false),
        (0x808008BEu32, "s_localized_strings_data"@, None, None, false),
        (0x80801A7Au32, "s_hdao_settings"@, None, None, false),
        (0x80801AB2u32, "s_screen_area_fx_settings"@, None, None, false),
        (0x80801AD7u32, "s_technique"@, None, None, false),
        (0x80801AF4u32, "s_gear_dye"@, None, None, false),
        (0x80801B2Bu32, "s_post_process_settings"@, None, None, false),
        (0x80801BC1u32, "s_autoexposure_settings"@, None, None, false),
        (0x80801C47u32, "s_scope"@, None, None, false),
        (0x80802732u32, "sui_tab_list"@, None, None, false),
        (0x808033EBu32, "sui_simple_dialog"@, None, None, false),
    ]
}

/// The classes of Destiny: Rise of Iron (and the first look alpha).
#[verifier::rlimit(50)]
pub fn classes_roi() -> (r: Vec<TagClass>)
    ensures
        class_rows(r@) == classes_roi_rows(),
{
    let mut v: Vec<TagClass> = Vec::new();
    v.push(class(0x8080035A, "s_localized_strings", None, None, false));
    v.push(class(0x808008BE, "s_localized_strings_data", None, None, false));
    v.push(class(0x80801A7A, "s_hdao_settings", None, None, false));
    v.push(class(0x80801AB2, "s_screen_area_fx_settings", None, None, false));
    v.push(class(0x80801AD7, "s_technique", None, None, false));
    v.push(class(0x80801AF4, "s_gear_dye", None, None, false));
    v.push(class(0x80801B2B, "s_post_process_settings", None, None, false));
    v.push(class(0x80801BC1, "s_autoexposure_settings", None, None, false));
    v.push(class(0x80801C47, "s_scope", None, None, false));
    v.push(class(0x80802732, "sui_tab_list", None, None, false));
    v.push(class(0x808033EB, "sui_simple_dialog", None, None, false));
    assert(class_rows(v@) =~= classes_roi_rows());
    v
}

/// The classes of Destiny 2 up to Shadowkeep.
pub open spec fn classes_sk_rows() -> Seq<(u32, Seq<char>, Option<usize>, Option<PrettyParser>, bool)> {
    seq![
        (0x80804607u32, "s_unk80804607"@, Some(12usize), Some(PrettyParser::Hex), false),
        (0x80804616u32, "s_unk80804616"@, Some(4usize), Some(PrettyParser::Hex), false),
        (0x80804618u32, "s_unk80804618"@, Some(4usize), Some(PrettyParser::Hex), false),
        (0x80804622u32, "s_unk80804622"@, Some(16usize), Some(PrettyParser::Hex), false),
        (0x808046D4u32, "s_unk808046d4"@, Some(24usize), Some(PrettyParser::Hex), false),
        (0x808046F3u32, "s_unk808046f3"@, Some(24usize), Some(PrettyParser::Hex), false),
        (0x8080473Bu32, "s_unk8080473b"@, Some(16usize), Some(PrettyParser::Hex), false),
        (0x80804743u32, "s_unk80804743"@, Some(24usize), Some(PrettyParser::Hex), false),
        (0x80804747u32, "s_unk80804747"@, Some(8usize), Some(PrettyParser::FnvAndTag), false),
        (0x8080474fu32, "s_unk8080474f"@, Some(8usize), Some(PrettyParser::Hex), false),
        (0x80804756u32, "s_unk80804756"@, Some(128usize), Some(PrettyParser::Hex), false),
        (0x8080475fu32, "s_unk8080475f"@, Some(40usize), Some(PrettyParser::Hex), false),
        (0x80804762u32, "s_unk80804762"@, Some(8usize), Some(PrettyParser::Hex), false),
        (0x80804763u32, "s_unk80804763"@, Some(8usize), Some(PrettyParser::Hex), false),
        (0x80804767u32, "s_unk80804767"@, Some(8usize), Some(PrettyParser::Hex), false),
        (0x80804768u32, "s_unk80804768"@, Some(64usize), Some(PrettyParser::Hex), false),
        (0x80804770u32, "s_unk80804770"@, Some(32usize), Some(PrettyParser::Hex), false),
        (0x80804772u32, "s_unk80804772"@, Some(32usize), Some(PrettyParser::Hex), false),
        (0x808047C6u32, "s_unk808047c6"@, Some(8usize), Some(PrettyParser::Hex), false),
        (0x808047CBu32, "s_unk808047cb"@, Some(24usize), Some(PrettyParser::Hex), false),
        (0x808047CDu32, "s_unk808047cd"@, Some(8usize), Some(PrettyParser::Hex), false),
        (0x80804858u32, "s_unk80804858"@, Some(24usize), Some(PrettyParser::Hex), false),
        (0x808048D7u32, "s_unk808048d7"@, Some(32usize), Some(PrettyParser::Hex), false),
        (0x80806B10u32, "s_unk80806b10"@, Some(12usize), Some(PrettyParser::Hex), false),
        (0x80807190u32, "s_static_mesh_instance_group"@, None, None, false),
        (0x80807193u32, "s_static_special_mesh"@, None, None, false),
        (0x80807194u32, "s_static_mesh_data"@, None, None, false),
        (0x8080719Au32, "s_static_mesh_part"@, None, None, false),
        (0x8080719Bu32, "s_static_mesh_group"@, None, None, false),
        (0x808071A3u32, "s_static_instance_transform"@, None, None, false),
        (0x808071A7u32, "s_static_mesh"@, None, None, false),
        (0x808071E8u32, "s_technique"@, None, None, false),
        (0x80807211u32, "s_material_texture_assignment"@, None, None, false),
        (0x808073F3u32, "s_sampler_reference"@, None, None, false),
        (0x8080966Du32, "s_static_mesh_instances"@, None, None, false),
        (0x808071F3u32, "s_scope"@, None, None, false),
        (0x80809802u32, "s_wwise_event"@, None, None, false),
        (0x80809A88u32, "s_localized_strings"@, None, None, false),
        (0x80809A8Au32, "s_localized_strings_data"@, None, None, false),
    ]
}

/// The classes of Destiny 2 up to Shadowkeep.
#[verifier::rlimit(50)]
pub fn classes_sk() -> (r: Vec<TagClass>)
    ensures
        class_rows(r@) == classes_sk_rows(),
{
    let mut v: Vec<TagClass> = Vec::new();
    v.push(class(0x80804607, "s_unk80804607", Some(12usize), Some(PrettyParser::Hex), false));
    v.push(class(0x80804616, "s_unk80804616", Some(4usize), Some(PrettyParser::Hex), false));
    v.push(class(0x80804618, "s_unk80804618", Some(4usize), Some(PrettyParser::Hex), false));
    v.push(class(0x80804622, "s_unk80804622", Some(16usize), Some(PrettyParser::Hex), false));
    v.push(class(0x808046D4, "s_unk808046d4", Some(24usize), Some(PrettyParser::Hex), false));
    v.push(class(0x808046F3, "s_unk808046f3", Some(24usize), Some(PrettyParser::Hex), false));
    v.push(class(0x8080473B, "s_unk8080473b", Some(16usize), Some(PrettyParser::Hex), false));
    v.push(class(0x80804743, "s_unk80804743", Some(24usize), Some(PrettyParser::Hex), false));
    v.push(class(0x80804747, "s_unk80804747", Some(8usize), Some(PrettyParser::FnvAndTag), false));
    v.push(class(0x8080474f, "s_unk8080474f", Some(8usize), Some(PrettyParser::Hex), false));
    v.push(class(0x80804756, "s_unk80804756", Some(128usize), Some(PrettyParser::Hex), false));
    v.push(class(0x8080475f, "s_unk8080475f", Some(40usize), Some(PrettyParser::Hex), false));
    v.push(class(0x80804762, "s_unk80804762", Some(8usize), Some(PrettyParser::Hex), false));
    v.push(class(0x80804763, "s_unk80804763", Some(8usize), Some(PrettyParser::Hex), false));
    v.push(class(0x80804767, "s_unk80804767", Some(8usize), Some(PrettyParser::Hex), false));
    v.push(class(0x80804768, "s_unk80804768", Some(64usize), Some(PrettyParser::Hex), false));
    v.push(class(0x80804770, "s_unk80804770", Some(32usize), Some(PrettyParser::Hex), false));
    v.push(class(0x80804772, "s_unk80804772", Some(32usize), Some(PrettyParser::Hex), false));
    v.push(class(0x808047C6, "s_unk808047c6", Some(8usize), Some(PrettyParser::Hex), false));
    v.push(class(0x808047CB, "s_unk808047cb", Some(24usize), Some(PrettyParser::Hex), false));
    v.push(class(0x808047CD, "s_unk808047cd", Some(8usize), Some(PrettyParser::Hex), false));
    v.push(class(0x80804858, "s_unk80804858", Some(24usize), Some(PrettyParser::Hex), false));
    v.push(class(0x808048D7, "s_unk808048d7", Some(32usize), Some(PrettyParser::Hex), false));
    v.push(class(0x80806B10, "s_unk80806b10", Some(12usize), Some(PrettyParser::Hex), false));
    v.push(class(0x80807190, "s_static_mesh_instance_group", None, None, false));
    v.push(class(0x80807193, "s_static_special_mesh", None, None, false));
    v.push(class(0x80807194, "s_static_mesh_data", None, None, false));
    v.push(class(0x8080719A, "s_static_mesh_part", None, None, false));
    v.push(class(0x8080719B, "s_static_mesh_group", None, None, false));
    v.push(class(0x808071A3, "s_static_instance_transform", None, None, false));
    v.push(class(0x808071A7, "s_static_mesh", None, None, false));
    v.push(class(0x808071E8, "s_technique", None, None, false));
    v.push(class(0x80807211, "s_material_texture_assignment", None, None, false));
    v.push(class(0x808073F3, "s_sampler_reference", None, None, false));
    v.push(class(0x8080966D, "s_static_mesh_instances", None, None, false));
    v.push(class(0x808071F3, "s_scope", None, None, false));
    v.push(class(0x80809802, "s_wwise_event", None, None, false));
    v.push(class(0x80809A88, "s_localized_strings", None, None, false));
    v.push(class(0x80809A8A, "s_localized_strings_data", None, None, false));
    assert(class_rows(v@) =~= classes_sk_rows());
    v
}

/// The classes of Destiny 2 from Beyond Light on.
pub open spec fn classes_bl_rows() -> Seq<(u32, Seq<char>, Option<usize>, Option<PrettyParser>, bool)> {
    seq![
        (0x808045EBu32, "s_music_score"@, None, None, false),
        (0x80804F2Cu32, "s_dye_channel_hash"@, None, None, false),
        (0x808051F2u32, "s_dye_channels"@, None, None, false),
        (0x80806695u32, "cubemap_resource"@, None, None, false),
        (0x80806A0Du32, "s_static_map_parent"@, None, None, false),
        (0x80806C81u32, "s_terrain"@, None, None, false),
        (0x80806C84u32, "s_static_part"@, None, None, false),
        (0x80806C86u32, "s_mesh_group"@, None, None, false),
        (0x80806CC9u32, "s_map_data_resource"@, None, None, false),
        (0x80806D28u32, "s_static_mesh_instance_map"@, None, None, false),
        (0x80806D2Fu32, "s_static_mesh_decal"@, None, None, false),
        (0x80806D30u32, "s_static_mesh_data"@, None, None, false),
        (0x80806D36u32, "s_static_mesh_buffers"@, Some(16usize), Some(PrettyParser::Hex), false),
        (0x80806D37u32, "s_static_mesh_part"@, Some(12usize), Some(PrettyParser::Hex), false),
        (0x80806D38u32, "s_static_mesh_group"@, Some(6usize), Some(PrettyParser::Hex), false),
        (0x80806D40u32, "s_static_mesh_instance_transform"@, None, None, false),
        (0x80806D44u32, "s_static_mesh"@, None, None, false),
        (0x80806DAAu32, "s_technique"@, None, None, false),
        (0x80806DBAu32, "s_scope"@, None, None, false),
        (0x80806DCFu32, "s_texture_tag_64"@, Some(24usize), Some(PrettyParser::Hex), false),
        (0x80806EC5u32, "s_entity_model_mesh"@, None, None, false),
        (0x80806F07u32, "s_entity_model"@, None, None, false),
        (0x80807211u32, "s_texture_tag"@, None, None, false),
        (0x80808701u32, "s_bubble_definition"@, None, None, false),
        (0x80808703u32, "s_map_container_entry"@, None, None, false),
        (0x80808707u32, "s_map_container"@, None, None, false),
        (0x80808709u32, "s_map_data_table_entry"@, None, None, false),
        (0x8080891Eu32, "s_bubble_parent"@, None, None, false),
        (0x80808BE0u32, "s_animation_clip"@, None, None, false),
        (0x80808E8Eu32, "s_activity"@, None, None, false),
        (0x808093ADu32, "s_static_map_data"@, None, None, false),
        (0x808093B1u32, "s_occlusion_bounds"@, None, None, false),
        (0x808093B3u32, "s_mesh_instance_occlusion_bounds"@, None, None, false),
        (0x808093BDu32, "s_static_mesh_hash"@, None, None, false),
        (0x80809738u32, "s_wwise_event"@, None, None, false),
        (0x808097B8u32, "s_dialog_table"@, None, None, false),
        (0x80809883u32, "s_map_data_table"@, None, None, false),
        (0x80809885u32, "s_map_data_entry"@, None, None, false),
        (0x808099EFu32, "s_localized_strings"@, None, None, false),
        (0x808099F1u32, "s_localized_strings_data"@, None, None, false),
        (0x808099F5u32, "s_string_part_definition"@, None, None, false),
        (0x808099F7u32, "s_string_part"@, None, None, false),
        (0x80809AD8u32, "s_entity"@, None, None, false),
        (0x80809B06u32, "s_entity_resource"@, None, None, false),
        (0x8080BFE6u32, "s_unk_music_8080bfe6"@, None, None, false),
        (0x8080BFE8u32, "s_unk_music_8080bfe8"@, None, None, false),
        (0x80806920u32, "s_gpu_particle_system"@, None, None, false),
        (0x80806E89u32, "s_unk_80806e89"@, Some(16usize), Some(PrettyParser::Hex), true),
    ]
}

/// The classes of Destiny 2 from Beyond Light on.
#[verifier::rlimit(50)]
pub fn classes_bl() -> (r: Vec<TagClass>)
    ensures
        class_rows(r@) == classes_bl_rows(),
{
    let mut v: Vec<TagClass> = Vec::new();
    v.push(class(0x808045EB, "s_music_score", None, None, false));
    v.push(class(0x80804F2C, "s_dye_channel_hash", None, None, false));
    v.push(class(0x808051F2, "s_dye_channels", None, None, false));
    v.push(class(0x80806695, "cubemap_resource", None, None, false));
    v.push(class(0x80806A0D, "s_static_map_parent", None, None, false));
    v.push(class(0x80806C81, "s_terrain", None, None, false));
    v.push(class(0x80806C84, "s_static_part", None, None, false));
    v.push(class(0x80806C86, "s_mesh_group", None, None, false));
    v.push(class(0x80806CC9, "s_map_data_resource", None, None, false));
    v.push(class(0x80806D28, "s_static_mesh_instance_map", None, None, false));
    v.push(class(0x80806D2F, "s_static_mesh_decal", None, None, false));
    v.push(class(0x80806D30, "s_static_mesh_data", None, None, false));
    v.push(class(0x80806D36, "s_static_mesh_buffers", Some(16usize), Some(PrettyParser::Hex), false));
    v.push(class(0x80806D37, "s_static_mesh_part", Some(12usize), Some(PrettyParser::Hex), false));
    v.push(class(0x80806D38, "s_static_mesh_group", Some(6usize), Some(PrettyParser::Hex), false));
    v.push(class(0x80806D40, "s_static_mesh_instance_transform", None, None, false));
    v.push(class(0x80806D44, "s_static_mesh", None, None, false));
    v.push(class(0x80806DAA, "s_technique", None, None, false));
    v.push(class(0x80806DBA, "s_scope", None, None, false));
    v.push(class(0x80806DCF, "s_texture_tag_64", Some(24usize), Some(PrettyParser::Hex), false));
    v.push(class(0x80806EC5, "s_entity_model_mesh", None, None, false));
    v.push(class(0x80806F07, "s_entity_model", None, None, false));
    v.push(class(0x80807211, "s_texture_tag", None, None, false));
    v.push(class(0x80808701, "s_bubble_definition", None, None, false));
    v.push(class(0x80808703, "s_map_container_entry", None, None, false));
    v.push(class(0x80808707, "s_map_container", None, None, false));
    v.push(class(0x80808709, "s_map_data_table_entry", None, None, false));
    v.push(class(0x8080891E, "s_bubble_parent", None, None, false));
    v.push(class(0x80808BE0, "s_animation_clip", None, None, false));
    v.push(class(0x80808E8E, "s_activity", None, None, false));
    v.push(class(0x808093AD, "s_static_map_data", None, None, false));
    v.push(class(0x808093B1, "s_occlusion_bounds", None, None, false));
    v.push(class(0x808093B3, "s_mesh_instance_occlusion_bounds", None, None, false));
    v.push(class(0x808093BD, "s_static_mesh_hash", None, None, false));
    v.push(class(0x80809738, "s_wwise_event", None, None, false));
    v.push(class(0x808097B8, "s_dialog_table", None, None, false));
    v.push(class(0x80809883, "s_map_data_table", None, None, false));
    v.push(class(0x80809885, "s_map_data_entry", None, None, false));
    v.push(class(0x808099EF, "s_localized_strings", None, None, false));
    v.push(class(0x808099F1, "s_localized_strings_data", None, None, false));
    v.push(class(0x808099F5, "s_string_part_definition", None, None, false));
    v.push(class(0x808099F7, "s_string_part", None, None, false));
    v.push(class(0x80809AD8, "s_entity", None, None, false));
    v.push(class(0x80809B06, "s_entity_resource", None, None, false));
    v.push(class(0x8080BFE6, "s_unk_music_8080bfe6", None, None, false));
    v.push(class(0x8080BFE8, "s_unk_music_8080bfe8", None, None, false));
    v.push(class(0x80806920, "s_gpu_particle_system", None, None, false));
    v.push(class(0x80806E89, "s_unk_80806e89", Some(16usize), Some(PrettyParser::Hex), true));
    assert(class_rows(v@) =~= classes_bl_rows());
    v
}

/// The release-specific class table of a version, where there is one (not for releases after
/// The Final Shape, nor for Marathon).
pub open spec fn version_class_rows(version: GameVersion) -> Option<Seq<(u32, Seq<char>, Option<usize>, Option<PrettyParser>, bool)>> {
    match version {
        GameVersion::Destiny(DestinyVersion::DestinyInternalAlpha) => Some(classes_devalpha_rows()),
        GameVersion::Destiny(DestinyVersion::DestinyTheTakenKing) => Some(classes_ttk_rows()),
        GameVersion::Destiny(DestinyVersion::DestinyFirstLookAlpha)
        | GameVersion::Destiny(DestinyVersion::DestinyRiseOfIron) => Some(classes_roi_rows()),
        GameVersion::Destiny(DestinyVersion::Destiny2Beta)
        | GameVersion::Destiny(DestinyVersion::Destiny2Forsaken)
        | GameVersion::Destiny(DestinyVersion::Destiny2Shadowkeep) => Some(classes_sk_rows()),
        GameVersion::Destiny(DestinyVersion::Destiny2BeyondLight)
        | GameVersion::Destiny(DestinyVersion::Destiny2WitchQueen)
        | GameVersion::Destiny(DestinyVersion::Destiny2Lightfall)
        | GameVersion::Destiny(DestinyVersion::Destiny2TheFinalShape) => Some(classes_bl_rows()),
        _ => None,
    }
}

/// Whether a version has a class table (see `version_class_rows`).
pub fn has_class_tables(version: GameVersion) -> (r: bool)
    ensures
        r == version_class_rows(version) is Some,
{
    match version {
        GameVersion::Destiny(DestinyVersion::DestinyInternalAlpha)
        | GameVersion::Destiny(DestinyVersion::DestinyTheTakenKing)
        | GameVersion::Destiny(DestinyVersion::DestinyFirstLookAlpha)
        | GameVersion::Destiny(DestinyVersion::DestinyRiseOfIron)
        | GameVersion::Destiny(DestinyVersion::Destiny2Beta)
        | GameVersion::Destiny(DestinyVersion::Destiny2Forsaken)
        | GameVersion::Destiny(DestinyVersion::Destiny2Shadowkeep)
        | GameVersion::Destiny(DestinyVersion::Destiny2BeyondLight)
        | GameVersion::Destiny(DestinyVersion::Destiny2WitchQueen)
        | GameVersion::Destiny(DestinyVersion::Destiny2Lightfall)
        | GameVersion::Destiny(DestinyVersion::Destiny2TheFinalShape) => true,
        _ => false,
    }
}

/// The class registry of a version: the classes every game has, then those of the release
/// (which replace them where ids meet), and no schema file classes yet.
pub fn initialize_reference_names(version: GameVersion) -> (r: ClassRegistry)
    requires
        version_class_rows(version) is Some,
    ensures
        class_rows(r.classes@) == classes_base_rows() + version_class_rows(version)->0,
        r.from_file@.len() == 0,
{
    let mut classes = classes_base();
    let mut specific = match version {
        GameVersion::Destiny(DestinyVersion::DestinyInternalAlpha) => classes_devalpha(),
        GameVersion::Destiny(DestinyVersion::DestinyTheTakenKing) => classes_ttk(),
        GameVersion::Destiny(DestinyVersion::DestinyFirstLookAlpha)
        | GameVersion::Destiny(DestinyVersion::DestinyRiseOfIron) => classes_roi(),
        GameVersion::Destiny(DestinyVersion::Destiny2Beta)
        | GameVersion::Destiny(DestinyVersion::Destiny2Forsaken)
        | GameVersion::Destiny(DestinyVersion::Destiny2Shadowkeep) => classes_sk(),
        _ => classes_bl(),
    };
    let ghost a = classes@;
    let ghost b = specific@;
    classes.append(&mut specific);
    assert(class_rows(classes@) =~= class_rows(a) + class_rows(b));
    ClassRegistry::new(classes, Vec::new())
}

} // verus!
