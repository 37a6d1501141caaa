//! The metadata of the maps that a mod bundles, from their `.meta.yaml` files.
use vstd::prelude::*;

use crate::saves::session::CoreModes;
use crate::utils::keyed::put;
use crate::utils::text::str_eq;
use crate::utils::yaml::{
    entries_view,
    field_node,
    lemma_put_get,
    mapping_put,
    opt_to_yaml,
    optional_field,
    reads_opt,
    required_field,
    written_opt,
    FromYaml,
    Yaml,
    YamlParseError,
    YamlParseErrorV,
    YamlV,
    YamlWriteError,
};

verus! {

/// The properties of one mode of a map in its `.meta.yaml`.
pub struct MapMetaModeProperty {
    pub audio_state: MapMetaAudioState,
    pub checkpoints: Option<Vec<MapMetaCheckpointData>>,
    pub ignore_level_audio_layer_data: Option<bool>,
    pub inventory: String,
    pub path: Option<String>,
    pub poem_id: Option<String>,
    pub start_level: Option<String>,
    pub heart_is_end: Option<bool>,
    pub seeker_slowdown: Option<bool>,
    pub theo_in_bubble: Option<bool>,
}

impl FromYaml for MapMetaModeProperty {
    open spec fn readable(y: YamlV) -> bool {
        <MapMetaAudioState as FromYaml>::readable(field_node(y, "AudioState"@))
        && <String as FromYaml>::readable(field_node(y, "Inventory"@))
    }

    open spec fn reads_as(y: YamlV, x: MapMetaModeProperty) -> bool {
        &&& <MapMetaAudioState as FromYaml>::reads_as(field_node(y, "AudioState"@), x.audio_state)
        &&& reads_opt::<Vec<MapMetaCheckpointData>>(field_node(y, "Checkpoints"@), x.checkpoints)
        &&& reads_opt::<bool>(field_node(y, "IgnoreLevelAudioLayerData"@), x.ignore_level_audio_layer_data)
        &&& <String as FromYaml>::reads_as(field_node(y, "Inventory"@), x.inventory)
        &&& reads_opt::<String>(field_node(y, "Path"@), x.path)
        &&& reads_opt::<String>(field_node(y, "PoemID"@), x.poem_id)
        &&& reads_opt::<String>(field_node(y, "StartLevel"@), x.start_level)
        &&& reads_opt::<bool>(field_node(y, "HeartIsEnd"@), x.heart_is_end)
        &&& reads_opt::<bool>(field_node(y, "SeekerSlowdown"@), x.seeker_slowdown)
        &&& reads_opt::<bool>(field_node(y, "TheoInBubble"@), x.theo_in_bubble)
    }

    open spec fn read_error(y: YamlV) -> YamlParseErrorV {
        if !<MapMetaAudioState as FromYaml>::readable(field_node(y, "AudioState"@)) {
            <MapMetaAudioState as FromYaml>::read_error(field_node(y, "AudioState"@))
        } else if !<String as FromYaml>::readable(field_node(y, "Inventory"@)) {
            <String as FromYaml>::read_error(field_node(y, "Inventory"@))
        } else {
            YamlParseErrorV::Custom(Seq::empty())
        }
    }

    open spec fn writable(x: MapMetaModeProperty) -> bool {
        true
    }

    open spec fn written(x: MapMetaModeProperty) -> YamlV {
        let m = Seq::<(YamlV, YamlV)>::empty();
        let m = put(m, YamlV::String("AudioState"@), <MapMetaAudioState as FromYaml>::written(x.audio_state));
        let m = put(m, YamlV::String("Checkpoints"@), written_opt::<Vec<MapMetaCheckpointData>>(x.checkpoints));
        let m = put(m, YamlV::String("IgnoreLevelAudioLayerData"@), written_opt::<bool>(x.ignore_level_audio_layer_data));
        let m = put(m, YamlV::String("Inventory"@), <String as FromYaml>::written(x.inventory));
        let m = put(m, YamlV::String("Path"@), written_opt::<String>(x.path));
        let m = put(m, YamlV::String("PoemID"@), written_opt::<String>(x.poem_id));
        let m = put(m, YamlV::String("StartLevel"@), written_opt::<String>(x.start_level));
        let m = put(m, YamlV::String("HeartIsEnd"@), written_opt::<bool>(x.heart_is_end));
        let m = put(m, YamlV::String("SeekerSlowdown"@), written_opt::<bool>(x.seeker_slowdown));
        let m = put(m, YamlV::String("TheoInBubble"@), written_opt::<bool>(x.theo_in_bubble));
        YamlV::Mapping(m)
    }

    open spec fn write_error(x: MapMetaModeProperty) -> Seq<char> {
        Seq::empty()
    }

    open spec fn keeps(x: MapMetaModeProperty) -> bool {
        &&& <MapMetaAudioState as FromYaml>::keeps(x.audio_state)
        &&& (x.checkpoints matches Some(v) ==> <Vec<MapMetaCheckpointData> as FromYaml>::keeps(v))
        &&& (x.ignore_level_audio_layer_data matches Some(v) ==> <bool as FromYaml>::keeps(v))
        &&& <String as FromYaml>::keeps(x.inventory)
        &&& (x.path matches Some(v) ==> <String as FromYaml>::keeps(v))
        &&& (x.poem_id matches Some(v) ==> <String as FromYaml>::keeps(v))
        &&& (x.start_level matches Some(v) ==> <String as FromYaml>::keeps(v))
        &&& (x.heart_is_end matches Some(v) ==> <bool as FromYaml>::keeps(v))
        &&& (x.seeker_slowdown matches Some(v) ==> <bool as FromYaml>::keeps(v))
        &&& (x.theo_in_bubble matches Some(v) ==> <bool as FromYaml>::keeps(v))
    }

    proof fn lemma_written_reads_back(x: MapMetaModeProperty) {
        reveal_strlit("AudioState");
        reveal_strlit("Checkpoints");
        reveal_strlit("IgnoreLevelAudioLayerData");
        reveal_strlit("Inventory");
        reveal_strlit("Path");
        reveal_strlit("PoemID");
        reveal_strlit("StartLevel");
        reveal_strlit("HeartIsEnd");
        reveal_strlit("SeekerSlowdown");
        reveal_strlit("TheoInBubble");
        assert("AudioState"@.len() == 10);
        assert("Checkpoints"@.len() == 11);
        assert("IgnoreLevelAudioLayerData"@.len() == 25);
        assert("Inventory"@.len() == 9);
        assert("Path"@.len() == 4);
        assert("PoemID"@.len() == 6);
        assert("StartLevel"@.len() == 10);
        assert("HeartIsEnd"@.len() == 10);
        assert("SeekerSlowdown"@.len() == 14);
        assert("TheoInBubble"@.len() == 12);
        assert("AudioState"@[0] == 'A');
        assert("StartLevel"@[0] == 'S');
        assert("HeartIsEnd"@[0] == 'H');
        let m0 = Seq::<(YamlV, YamlV)>::empty();
        let m1 = put(m0, YamlV::String("AudioState"@), <MapMetaAudioState as FromYaml>::written(x.audio_state));
        let m2 = put(m1, YamlV::String("Checkpoints"@), written_opt::<Vec<MapMetaCheckpointData>>(x.checkpoints));
        let m3 = put(m2, YamlV::String("IgnoreLevelAudioLayerData"@), written_opt::<bool>(x.ignore_level_audio_layer_data));
        let m4 = put(m3, YamlV::String("Inventory"@), <String as FromYaml>::written(x.inventory));
        let m5 = put(m4, YamlV::String("Path"@), written_opt::<String>(x.path));
        let m6 = put(m5, YamlV::String("PoemID"@), written_opt::<String>(x.poem_id));
        let m7 = put(m6, YamlV::String("StartLevel"@), written_opt::<String>(x.start_level));
        let m8 = put(m7, YamlV::String("HeartIsEnd"@), written_opt::<bool>(x.heart_is_end));
        let m9 = put(m8, YamlV::String("SeekerSlowdown"@), written_opt::<bool>(x.seeker_slowdown));
        let m10 = put(m9, YamlV::String("TheoInBubble"@), written_opt::<bool>(x.theo_in_bubble));
        lemma_put_get(m9, "TheoInBubble"@, written_opt::<bool>(x.theo_in_bubble), "AudioState"@);
        lemma_put_get(m8, "SeekerSlowdown"@, written_opt::<bool>(x.seeker_slowdown), "AudioState"@);
        lemma_put_get(m7, "HeartIsEnd"@, written_opt::<bool>(x.heart_is_end), "AudioState"@);
        lemma_put_get(m6, "StartLevel"@, written_opt::<String>(x.start_level), "AudioState"@);
        lemma_put_get(m5, "PoemID"@, written_opt::<String>(x.poem_id), "AudioState"@);
        lemma_put_get(m4, "Path"@, written_opt::<String>(x.path), "AudioState"@);
        lemma_put_get(m3, "Inventory"@, <String as FromYaml>::written(x.inventory), "AudioState"@);
        lemma_put_get(m2, "IgnoreLevelAudioLayerData"@, written_opt::<bool>(x.ignore_level_audio_layer_data), "AudioState"@);
        lemma_put_get(m1, "Checkpoints"@, written_opt::<Vec<MapMetaCheckpointData>>(x.checkpoints), "AudioState"@);
        lemma_put_get(m0, "AudioState"@, <MapMetaAudioState as FromYaml>::written(x.audio_state), "AudioState"@);
        <MapMetaAudioState as FromYaml>::lemma_written_reads_back(x.audio_state);
        lemma_put_get(m9, "TheoInBubble"@, written_opt::<bool>(x.theo_in_bubble), "Checkpoints"@);
        lemma_put_get(m8, "SeekerSlowdown"@, written_opt::<bool>(x.seeker_slowdown), "Checkpoints"@);
        lemma_put_get(m7, "HeartIsEnd"@, written_opt::<bool>(x.heart_is_end), "Checkpoints"@);
        lemma_put_get(m6, "StartLevel"@, written_opt::<String>(x.start_level), "Checkpoints"@);
        lemma_put_get(m5, "PoemID"@, written_opt::<String>(x.poem_id), "Checkpoints"@);
        lemma_put_get(m4, "Path"@, written_opt::<String>(x.path), "Checkpoints"@);
        lemma_put_get(m3, "Inventory"@, <String as FromYaml>::written(x.inventory), "Checkpoints"@);
        lemma_put_get(m2, "IgnoreLevelAudioLayerData"@, written_opt::<bool>(x.ignore_level_audio_layer_data), "Checkpoints"@);
        lemma_put_get(m1, "Checkpoints"@, written_opt::<Vec<MapMetaCheckpointData>>(x.checkpoints), "Checkpoints"@);
        if let Some(v) = x.checkpoints {
            <Vec<MapMetaCheckpointData> as FromYaml>::lemma_written_reads_back(v);
        }
        lemma_put_get(m9, "TheoInBubble"@, written_opt::<bool>(x.theo_in_bubble), "IgnoreLevelAudioLayerData"@);
        lemma_put_get(m8, "SeekerSlowdown"@, written_opt::<bool>(x.seeker_slowdown), "IgnoreLevelAudioLayerData"@);
        lemma_put_get(m7, "HeartIsEnd"@, written_opt::<bool>(x.heart_is_end), "IgnoreLevelAudioLayerData"@);
        lemma_put_get(m6, "StartLevel"@, written_opt::<String>(x.start_level), "IgnoreLevelAudioLayerData"@);
        lemma_put_get(m5, "PoemID"@, written_opt::<String>(x.poem_id), "IgnoreLevelAudioLayerData"@);
        lemma_put_get(m4, "Path"@, written_opt::<String>(x.path), "IgnoreLevelAudioLayerData"@);
        lemma_put_get(m3, "Inventory"@, <String as FromYaml>::written(x.inventory), "IgnoreLevelAudioLayerData"@);
        lemma_put_get(m2, "IgnoreLevelAudioLayerData"@, written_opt::<bool>(x.ignore_level_audio_layer_data), "IgnoreLevelAudioLayerData"@);
        if let Some(v) = x.ignore_level_audio_layer_data {
            <bool as FromYaml>::lemma_written_reads_back(v);
        }
        lemma_put_get(m9, "TheoInBubble"@, written_opt::<bool>(x.theo_in_bubble), "Inventory"@);
        lemma_put_get(m8, "SeekerSlowdown"@, written_opt::<bool>(x.seeker_slowdown), "Inventory"@);
        lemma_put_get(m7, "HeartIsEnd"@, written_opt::<bool>(x.heart_is_end), "Inventory"@);
        lemma_put_get(m6, "StartLevel"@, written_opt::<String>(x.start_level), "Inventory"@);
        lemma_put_get(m5, "PoemID"@, written_opt::<String>(x.poem_id), "Inventory"@);
        lemma_put_get(m4, "Path"@, written_opt::<String>(x.path), "Inventory"@);
        lemma_put_get(m3, "Inventory"@, <String as FromYaml>::written(x.inventory), "Inventory"@);
        <String as FromYaml>::lemma_written_reads_back(x.inventory);
        lemma_put_get(m9, "TheoInBubble"@, written_opt::<bool>(x.theo_in_bubble), "Path"@);
        lemma_put_get(m8, "SeekerSlowdown"@, written_opt::<bool>(x.seeker_slowdown), "Path"@);
        lemma_put_get(m7, "HeartIsEnd"@, written_opt::<bool>(x.heart_is_end), "Path"@);
        lemma_put_get(m6, "StartLevel"@, written_opt::<String>(x.start_level), "Path"@);
        lemma_put_get(m5, "PoemID"@, written_opt::<String>(x.poem_id), "Path"@);
        lemma_put_get(m4, "Path"@, written_opt::<String>(x.path), "Path"@);
        if let Some(v) = x.path {
            <String as FromYaml>::lemma_written_reads_back(v);
        }
        lemma_put_get(m9, "TheoInBubble"@, written_opt::<bool>(x.theo_in_bubble), "PoemID"@);
        lemma_put_get(m8, "SeekerSlowdown"@, written_opt::<bool>(x.seeker_slowdown), "PoemID"@);
        lemma_put_get(m7, "HeartIsEnd"@, written_opt::<bool>(x.heart_is_end), "PoemID"@);
        lemma_put_get(m6, "StartLevel"@, written_opt::<String>(x.start_level), "PoemID"@);
        lemma_put_get(m5, "PoemID"@, written_opt::<String>(x.poem_id), "PoemID"@);
        if let Some(v) = x.poem_id {
            <String as FromYaml>::lemma_written_reads_back(v);
        }
        lemma_put_get(m9, "TheoInBubble"@, written_opt::<bool>(x.theo_in_bubble), "StartLevel"@);
        lemma_put_get(m8, "SeekerSlowdown"@, written_opt::<bool>(x.seeker_slowdown), "StartLevel"@);
        lemma_put_get(m7, "HeartIsEnd"@, written_opt::<bool>(x.heart_is_end), "StartLevel"@);
        lemma_put_get(m6, "StartLevel"@, written_opt::<String>(x.start_level), "StartLevel"@);
        if let Some(v) = x.start_level {
            <String as FromYaml>::lemma_written_reads_back(v);
        }
        lemma_put_get(m9, "TheoInBubble"@, written_opt::<bool>(x.theo_in_bubble), "HeartIsEnd"@);
        lemma_put_get(m8, "SeekerSlowdown"@, written_opt::<bool>(x.seeker_slowdown), "HeartIsEnd"@);
        lemma_put_get(m7, "HeartIsEnd"@, written_opt::<bool>(x.heart_is_end), "HeartIsEnd"@);
        if let Some(v) = x.heart_is_end {
            <bool as FromYaml>::lemma_written_reads_back(v);
        }
        lemma_put_get(m9, "TheoInBubble"@, written_opt::<bool>(x.theo_in_bubble), "SeekerSlowdown"@);
        lemma_put_get(m8, "SeekerSlowdown"@, written_opt::<bool>(x.seeker_slowdown), "SeekerSlowdown"@);
        if let Some(v) = x.seeker_slowdown {
            <bool as FromYaml>::lemma_written_reads_back(v);
        }
        lemma_put_get(m9, "TheoInBubble"@, written_opt::<bool>(x.theo_in_bubble), "TheoInBubble"@);
        if let Some(v) = x.theo_in_bubble {
            <bool as FromYaml>::lemma_written_reads_back(v);
        }
    }

    proof fn lemma_read_keeps(y: YamlV, x: MapMetaModeProperty) {
        <MapMetaAudioState as FromYaml>::lemma_read_keeps(field_node(y, "AudioState"@), x.audio_state);
        if let Some(v) = x.checkpoints {
            <Vec<MapMetaCheckpointData> as FromYaml>::lemma_read_keeps(field_node(y, "Checkpoints"@), v);
        }
        if let Some(v) = x.ignore_level_audio_layer_data {
            <bool as FromYaml>::lemma_read_keeps(field_node(y, "IgnoreLevelAudioLayerData"@), v);
        }
        <String as FromYaml>::lemma_read_keeps(field_node(y, "Inventory"@), x.inventory);
        if let Some(v) = x.path {
            <String as FromYaml>::lemma_read_keeps(field_node(y, "Path"@), v);
        }
        if let Some(v) = x.poem_id {
            <String as FromYaml>::lemma_read_keeps(field_node(y, "PoemID"@), v);
        }
        if let Some(v) = x.start_level {
            <String as FromYaml>::lemma_read_keeps(field_node(y, "StartLevel"@), v);
        }
        if let Some(v) = x.heart_is_end {
            <bool as FromYaml>::lemma_read_keeps(field_node(y, "HeartIsEnd"@), v);
        }
        if let Some(v) = x.seeker_slowdown {
            <bool as FromYaml>::lemma_read_keeps(field_node(y, "SeekerSlowdown"@), v);
        }
        if let Some(v) = x.theo_in_bubble {
            <bool as FromYaml>::lemma_read_keeps(field_node(y, "TheoInBubble"@), v);
        }
    }

    fn parse_from_yaml(yaml: &Yaml) -> (r: Result<MapMetaModeProperty, YamlParseError>) {
        let audio_state = required_field::<MapMetaAudioState>(yaml, "AudioState");
        let checkpoints = optional_field::<Vec<MapMetaCheckpointData>>(yaml, "Checkpoints");
        let ignore_level_audio_layer_data = optional_field::<bool>(yaml, "IgnoreLevelAudioLayerData");
        let inventory = required_field::<String>(yaml, "Inventory");
        let path = optional_field::<String>(yaml, "Path");
        let poem_id = optional_field::<String>(yaml, "PoemID");
        let start_level = optional_field::<String>(yaml, "StartLevel");
        let heart_is_end = optional_field::<bool>(yaml, "HeartIsEnd");
        let seeker_slowdown = optional_field::<bool>(yaml, "SeekerSlowdown");
        let theo_in_bubble = optional_field::<bool>(yaml, "TheoInBubble");
        let audio_state = match audio_state {
            Ok(v) => v,
            Err(e) => {
                return Err(e);
            },
        };
        let inventory = match inventory {
            Ok(v) => v,
            Err(e) => {
                return Err(e);
            },
        };
        Ok(MapMetaModeProperty { audio_state, checkpoints, ignore_level_audio_layer_data, inventory, path, poem_id, start_level, heart_is_end, seeker_slowdown, theo_in_bubble })
    }

    fn to_yaml(&self) -> (r: Result<Yaml, YamlWriteError>) {
        let mut output: Vec<(Yaml, Yaml)> = Vec::new();
        assert(entries_view(output@) =~= Seq::<(YamlV, YamlV)>::empty());
        let v = match self.audio_state.to_yaml() {
            Ok(v) => v,
            Err(e) => {
                return Err(e);
            },
        };
        mapping_put(&mut output, "AudioState".to_owned(), v);
        let v = match opt_to_yaml(&self.checkpoints) {
            Ok(v) => v,
            Err(e) => {
                return Err(e);
            },
        };
        mapping_put(&mut output, "Checkpoints".to_owned(), v);
        let v = match opt_to_yaml(&self.ignore_level_audio_layer_data) {
            Ok(v) => v,
            Err(e) => {
                return Err(e);
            },
        };
        mapping_put(&mut output, "IgnoreLevelAudioLayerData".to_owned(), v);
        let v = match self.inventory.to_yaml() {
            Ok(v) => v,
            Err(e) => {
                return Err(e);
            },
        };
        mapping_put(&mut output, "Inventory".to_owned(), v);
        let v = match opt_to_yaml(&self.path) {
            Ok(v) => v,
            Err(e) => {
                return Err(e);
            },
        };
        mapping_put(&mut output, "Path".to_owned(), v);
        let v = match opt_to_yaml(&self.poem_id) {
            Ok(v) => v,
            Err(e) => {
                return Err(e);
            },
        };
        mapping_put(&mut output, "PoemID".to_owned(), v);
        let v = match opt_to_yaml(&self.start_level) {
            Ok(v) => v,
            Err(e) => {
                return Err(e);
            },
        };
        mapping_put(&mut output, "StartLevel".to_owned(), v);
        let v = match opt_to_yaml(&self.heart_is_end) {
            Ok(v) => v,
            Err(e) => {
                return Err(e);
            },
        };
        mapping_put(&mut output, "HeartIsEnd".to_owned(), v);
        let v = match opt_to_yaml(&self.seeker_slowdown) {
            Ok(v) => v,
            Err(e) => {
                return Err(e);
            },
        };
        mapping_put(&mut output, "SeekerSlowdown".to_owned(), v);
        let v = match opt_to_yaml(&self.theo_in_bubble) {
            Ok(v) => v,
            Err(e) => {
                return Err(e);
            },
        };
        mapping_put(&mut output, "TheoInBubble".to_owned(), v);
        Ok(Yaml::hash(output))
    }
}

/// The music and ambience a map plays.
pub struct MapMetaAudioState {
    pub music: String,
    pub ambience: String,
}

impl FromYaml for MapMetaAudioState {
    open spec fn readable(y: YamlV) -> bool {
        <String as FromYaml>::readable(field_node(y, "Music"@))
        && <String as FromYaml>::readable(field_node(y, "Ambience"@))
    }

    open spec fn reads_as(y: YamlV, x: MapMetaAudioState) -> bool {
        &&& <String as FromYaml>::reads_as(field_node(y, "Music"@), x.music)
        &&& <String as FromYaml>::reads_as(field_node(y, "Ambience"@), x.ambience)
    }

    open spec fn read_error(y: YamlV) -> YamlParseErrorV {
        if !<String as FromYaml>::readable(field_node(y, "Music"@)) {
            <String as FromYaml>::read_error(field_node(y, "Music"@))
        } else if !<String as FromYaml>::readable(field_node(y, "Ambience"@)) {
            <String as FromYaml>::read_error(field_node(y, "Ambience"@))
        } else {
            YamlParseErrorV::Custom(Seq::empty())
        }
    }

    open spec fn writable(x: MapMetaAudioState) -> bool {
        true
    }

    open spec fn written(x: MapMetaAudioState) -> YamlV {
        let m = Seq::<(YamlV, YamlV)>::empty();
        let m = put(m, YamlV::String("Music"@), <String as FromYaml>::written(x.music));
        let m = put(m, YamlV::String("Ambience"@), <String as FromYaml>::written(x.ambience));
        YamlV::Mapping(m)
    }

    open spec fn write_error(x: MapMetaAudioState) -> Seq<char> {
        Seq::empty()
    }

    open spec fn keeps(x: MapMetaAudioState) -> bool {
        &&& <String as FromYaml>::keeps(x.music)
        &&& <String as FromYaml>::keeps(x.ambience)
    }

    proof fn lemma_written_reads_back(x: MapMetaAudioState) {
        reveal_strlit("Music");
        reveal_strlit("Ambience");
        assert("Music"@.len() == 5);
        assert("Ambience"@.len() == 8);
        let m0 = Seq::<(YamlV, YamlV)>::empty();
        let m1 = put(m0, YamlV::String("Music"@), <String as FromYaml>::written(x.music));
        let m2 = put(m1, YamlV::String("Ambience"@), <String as FromYaml>::written(x.ambience));
        lemma_put_get(m1, "Ambience"@, <String as FromYaml>::written(x.ambience), "Music"@);
        lemma_put_get(m0, "Music"@, <String as FromYaml>::written(x.music), "Music"@);
        <String as FromYaml>::lemma_written_reads_back(x.music);
        lemma_put_get(m1, "Ambience"@, <String as FromYaml>::written(x.ambience), "Ambience"@);
        <String as FromYaml>::lemma_written_reads_back(x.ambience);
    }

    proof fn lemma_read_keeps(y: YamlV, x: MapMetaAudioState) {
        <String as FromYaml>::lemma_read_keeps(field_node(y, "Music"@), x.music);
        <String as FromYaml>::lemma_read_keeps(field_node(y, "Ambience"@), x.ambience);
    }

    fn parse_from_yaml(yaml: &Yaml) -> (r: Result<MapMetaAudioState, YamlParseError>) {
        let music = required_field::<String>(yaml, "Music");
        let ambience = required_field::<String>(yaml, "Ambience");
        let music = match music {
            Ok(v) => v,
            Err(e) => {
                return Err(e);
            },
        };
        let ambience = match ambience {
            Ok(v) => v,
            Err(e) => {
                return Err(e);
            },
        };
        Ok(MapMetaAudioState { music, ambience })
    }

    fn to_yaml(&self) -> (r: Result<Yaml, YamlWriteError>) {
        let mut output: Vec<(Yaml, Yaml)> = Vec::new();
        assert(entries_view(output@) =~= Seq::<(YamlV, YamlV)>::empty());
        let v = match self.music.to_yaml() {
            Ok(v) => v,
            Err(e) => {
                return Err(e);
            },
        };
        mapping_put(&mut output, "Music".to_owned(), v);
        let v = match self.ambience.to_yaml() {
            Ok(v) => v,
            Err(e) => {
                return Err(e);
            },
        };
        mapping_put(&mut output, "Ambience".to_owned(), v);
        Ok(Yaml::hash(output))
    }
}

/// A checkpoint of a map mode.
pub struct MapMetaCheckpointData {
    pub level: String,
    pub name: String,
    pub dreaming: Option<bool>,
    pub inventory: String,
    pub audio_state: MapMetaAudioState,
    pub flags: Vec<String>,
    pub core_mode: Option<CoreModes>,
}

impl FromYaml for MapMetaCheckpointData {
    open spec fn readable(y: YamlV) -> bool {
        <String as FromYaml>::readable(field_node(y, "Level"@))
        && <String as FromYaml>::readable(field_node(y, "Name"@))
        && <String as FromYaml>::readable(field_node(y, "Inventory"@))
        && <MapMetaAudioState as FromYaml>::readable(field_node(y, "AudioState"@))
        && <Vec<String> as FromYaml>::readable(field_node(y, "Flags"@))
    }

    open spec fn reads_as(y: YamlV, x: MapMetaCheckpointData) -> bool {
        &&& <String as FromYaml>::reads_as(field_node(y, "Level"@), x.level)
        &&& <String as FromYaml>::reads_as(field_node(y, "Name"@), x.name)
        &&& reads_opt::<bool>(field_node(y, "Dreaming"@), x.dreaming)
        &&& <String as FromYaml>::reads_as(field_node(y, "Inventory"@), x.inventory)
        &&& <MapMetaAudioState as FromYaml>::reads_as(field_node(y, "AudioState"@), x.audio_state)
        &&& <Vec<String> as FromYaml>::reads_as(field_node(y, "Flags"@), x.flags)
        &&& reads_opt::<CoreModes>(field_node(y, "CoreMode"@), x.core_mode)
    }

    open spec fn read_error(y: YamlV) -> YamlParseErrorV {
        if !<String as FromYaml>::readable(field_node(y, "Level"@)) {
            <String as FromYaml>::read_error(field_node(y, "Level"@))
        } else if !<String as FromYaml>::readable(field_node(y, "Name"@)) {
            <String as FromYaml>::read_error(field_node(y, "Name"@))
        } else if !<String as FromYaml>::readable(field_node(y, "Inventory"@)) {
            <String as FromYaml>::read_error(field_node(y, "Inventory"@))
        } else if !<MapMetaAudioState as FromYaml>::readable(field_node(y, "AudioState"@)) {
            <MapMetaAudioState as FromYaml>::read_error(field_node(y, "AudioState"@))
        } else if !<Vec<String> as FromYaml>::readable(field_node(y, "Flags"@)) {
            <Vec<String> as FromYaml>::read_error(field_node(y, "Flags"@))
        } else {
            YamlParseErrorV::Custom(Seq::empty())
        }
    }

    open spec fn writable(x: MapMetaCheckpointData) -> bool {
        true
    }

    open spec fn written(x: MapMetaCheckpointData) -> YamlV {
        let m = Seq::<(YamlV, YamlV)>::empty();
        let m = put(m, YamlV::String("Level"@), <String as FromYaml>::written(x.level));
        let m = put(m, YamlV::String("Name"@), <String as FromYaml>::written(x.name));
        let m = put(m, YamlV::String("Dreaming"@), written_opt::<bool>(x.dreaming));
        let m = put(m, YamlV::String("Inventory"@), <String as FromYaml>::written(x.inventory));
        let m = put(m, YamlV::String("AudioState"@), <MapMetaAudioState as FromYaml>::written(x.audio_state));
        let m = put(m, YamlV::String("Flags"@), <Vec<String> as FromYaml>::written(x.flags));
        let m = put(m, YamlV::String("CoreMode"@), written_opt::<CoreModes>(x.core_mode));
        YamlV::Mapping(m)
    }

    open spec fn write_error(x: MapMetaCheckpointData) -> Seq<char> {
        Seq::empty()
    }

    open spec fn keeps(x: MapMetaCheckpointData) -> bool {
        &&& <String as FromYaml>::keeps(x.level)
        &&& <String as FromYaml>::keeps(x.name)
        &&& (x.dreaming matches Some(v) ==> <bool as FromYaml>::keeps(v))
        &&& <String as FromYaml>::keeps(x.inventory)
        &&& <MapMetaAudioState as FromYaml>::keeps(x.audio_state)
        &&& <Vec<String> as FromYaml>::keeps(x.flags)
        &&& (x.core_mode matches Some(v) ==> <CoreModes as FromYaml>::keeps(v))
    }

    proof fn lemma_written_reads_back(x: MapMetaCheckpointData) {
        reveal_strlit("Level");
        reveal_strlit("Name");
        reveal_strlit("Dreaming");
        reveal_strlit("Inventory");
        reveal_strlit("AudioState");
        reveal_strlit("Flags");
        reveal_strlit("CoreMode");
        assert("Level"@.len() == 5);
        assert("Name"@.len() == 4);
        assert("Dreaming"@.len() == 8);
        assert("Inventory"@.len() == 9);
        assert("AudioState"@.len() == 10);
        assert("Flags"@.len() == 5);
        assert("CoreMode"@.len() == 8);
        assert("Flags"@[0] == 'F');
        assert("Level"@[0] == 'L');
        assert("CoreMode"@[0] == 'C');
        assert("Dreaming"@[0] == 'D');
        let m0 = Seq::<(YamlV, YamlV)>::empty();
        let m1 = put(m0, YamlV::String("Level"@), <String as FromYaml>::written(x.level));
        let m2 = put(m1, YamlV::String("Name"@), <String as FromYaml>::written(x.name));
        let m3 = put(m2, YamlV::String("Dreaming"@), written_opt::<bool>(x.dreaming));
        let m4 = put(m3, YamlV::String("Inventory"@), <String as FromYaml>::written(x.inventory));
        let m5 = put(m4, YamlV::String("AudioState"@), <MapMetaAudioState as FromYaml>::written(x.audio_state));
        let m6 = put(m5, YamlV::String("Flags"@), <Vec<String> as FromYaml>::written(x.flags));
        let m7 = put(m6, YamlV::String("CoreMode"@), written_opt::<CoreModes>(x.core_mode));
        lemma_put_get(m6, "CoreMode"@, written_opt::<CoreModes>(x.core_mode), "Level"@);
        lemma_put_get(m5, "Flags"@, <Vec<String> as FromYaml>::written(x.flags), "Level"@);
        lemma_put_get(m4, "AudioState"@, <MapMetaAudioState as FromYaml>::written(x.audio_state), "Level"@);
        lemma_put_get(m3, "Inventory"@, <String as FromYaml>::written(x.inventory), "Level"@);
        lemma_put_get(m2, "Dreaming"@, written_opt::<bool>(x.dreaming), "Level"@);
        lemma_put_get(m1, "Name"@, <String as FromYaml>::written(x.name), "Level"@);
        lemma_put_get(m0, "Level"@, <String as FromYaml>::written(x.level), "Level"@);
        <String as FromYaml>::lemma_written_reads_back(x.level);
        lemma_put_get(m6, "CoreMode"@, written_opt::<CoreModes>(x.core_mode), "Name"@);
        lemma_put_get(m5, "Flags"@, <Vec<String> as FromYaml>::written(x.flags), "Name"@);
        lemma_put_get(m4, "AudioState"@, <MapMetaAudioState as FromYaml>::written(x.audio_state), "Name"@);
        lemma_put_get(m3, "Inventory"@, <String as FromYaml>::written(x.inventory), "Name"@);
        lemma_put_get(m2, "Dreaming"@, written_opt::<bool>(x.dreaming), "Name"@);
        lemma_put_get(m1, "Name"@, <String as FromYaml>::written(x.name), "Name"@);
        <String as FromYaml>::lemma_written_reads_back(x.name);
        lemma_put_get(m6, "CoreMode"@, written_opt::<CoreModes>(x.core_mode), "Dreaming"@);
        lemma_put_get(m5, "Flags"@, <Vec<String> as FromYaml>::written(x.flags), "Dreaming"@);
        lemma_put_get(m4, "AudioState"@, <MapMetaAudioState as FromYaml>::written(x.audio_state), "Dreaming"@);
        lemma_put_get(m3, "Inventory"@, <String as FromYaml>::written(x.inventory), "Dreaming"@);
        lemma_put_get(m2, "Dreaming"@, written_opt::<bool>(x.dreaming), "Dreaming"@);
        if let Some(v) = x.dreaming {
            <bool as FromYaml>::lemma_written_reads_back(v);
        }
        lemma_put_get(m6, "CoreMode"@, written_opt::<CoreModes>(x.core_mode), "Inventory"@);
        lemma_put_get(m5, "Flags"@, <Vec<String> as FromYaml>::written(x.flags), "Inventory"@);
        lemma_put_get(m4, "AudioState"@, <MapMetaAudioState as FromYaml>::written(x.audio_state), "Inventory"@);
        lemma_put_get(m3, "Inventory"@, <String as FromYaml>::written(x.inventory), "Inventory"@);
        <String as FromYaml>::lemma_written_reads_back(x.inventory);
        lemma_put_get(m6, "CoreMode"@, written_opt::<CoreModes>(x.core_mode), "AudioState"@);
        lemma_put_get(m5, "Flags"@, <Vec<String> as FromYaml>::written(x.flags), "AudioState"@);
        lemma_put_get(m4, "AudioState"@, <MapMetaAudioState as FromYaml>::written(x.audio_state), "AudioState"@);
        <MapMetaAudioState as FromYaml>::lemma_written_reads_back(x.audio_state);
        lemma_put_get(m6, "CoreMode"@, written_opt::<CoreModes>(x.core_mode), "Flags"@);
        lemma_put_get(m5, "Flags"@, <Vec<String> as FromYaml>::written(x.flags), "Flags"@);
        <Vec<String> as FromYaml>::lemma_written_reads_back(x.flags);
        lemma_put_get(m6, "CoreMode"@, written_opt::<CoreModes>(x.core_mode), "CoreMode"@);
        if let Some(v) = x.core_mode {
            <CoreModes as FromYaml>::lemma_written_reads_back(v);
        }
    }

    proof fn lemma_read_keeps(y: YamlV, x: MapMetaCheckpointData) {
        <String as FromYaml>::lemma_read_keeps(field_node(y, "Level"@), x.level);
        <String as FromYaml>::lemma_read_keeps(field_node(y, "Name"@), x.name);
        if let Some(v) = x.dreaming {
            <bool as FromYaml>::lemma_read_keeps(field_node(y, "Dreaming"@), v);
        }
        <String as FromYaml>::lemma_read_keeps(field_node(y, "Inventory"@), x.inventory);
        <MapMetaAudioState as FromYaml>::lemma_read_keeps(field_node(y, "AudioState"@), x.audio_state);
        <Vec<String> as FromYaml>::lemma_read_keeps(field_node(y, "Flags"@), x.flags);
        if let Some(v) = x.core_mode {
            <CoreModes as FromYaml>::lemma_read_keeps(field_node(y, "CoreMode"@), v);
        }
    }

    fn parse_from_yaml(yaml: &Yaml) -> (r: Result<MapMetaCheckpointData, YamlParseError>) {
        let level = required_field::<String>(yaml, "Level");
        let name = required_field::<String>(yaml, "Name");
        let dreaming = optional_field::<bool>(yaml, "Dreaming");
        let inventory = required_field::<String>(yaml, "Inventory");
        let audio_state = required_field::<MapMetaAudioState>(yaml, "AudioState");
        let flags = required_field::<Vec<String>>(yaml, "Flags");
        let core_mode = optional_field::<CoreModes>(yaml, "CoreMode");
        let level = match level {
            Ok(v) => v,
            Err(e) => {
                return Err(e);
            },
        };
        let name = match name {
            Ok(v) => v,
            Err(e) => {
                return Err(e);
            },
        };
        let inventory = match inventory {
            Ok(v) => v,
            Err(e) => {
                return Err(e);
            },
        };
        let audio_state = match audio_state {
            Ok(v) => v,
            Err(e) => {
                return Err(e);
            },
        };
        let flags = match flags {
            Ok(v) => v,
            Err(e) => {
                return Err(e);
            },
        };
        Ok(MapMetaCheckpointData { level, name, dreaming, inventory, audio_state, flags, core_mode })
    }

    fn to_yaml(&self) -> (r: Result<Yaml, YamlWriteError>) {
        let mut output: Vec<(Yaml, Yaml)> = Vec::new();
        assert(entries_view(output@) =~= Seq::<(YamlV, YamlV)>::empty());
        let v = match self.level.to_yaml() {
            Ok(v) => v,
            Err(e) => {
                return Err(e);
            },
        };
        mapping_put(&mut output, "Level".to_owned(), v);
        let v = match self.name.to_yaml() {
            Ok(v) => v,
            Err(e) => {
                return Err(e);
            },
        };
        mapping_put(&mut output, "Name".to_owned(), v);
        let v = match opt_to_yaml(&self.dreaming) {
            Ok(v) => v,
            Err(e) => {
                return Err(e);
            },
        };
        mapping_put(&mut output, "Dreaming".to_owned(), v);
        let v = match self.inventory.to_yaml() {
            Ok(v) => v,
            Err(e) => {
                return Err(e);
            },
        };
        mapping_put(&mut output, "Inventory".to_owned(), v);
        let v = match self.audio_state.to_yaml() {
            Ok(v) => v,
            Err(e) => {
                return Err(e);
            },
        };
        mapping_put(&mut output, "AudioState".to_owned(), v);
        let v = match self.flags.to_yaml() {
            Ok(v) => v,
            Err(e) => {
                return Err(e);
            },
        };
        mapping_put(&mut output, "Flags".to_owned(), v);
        let v = match opt_to_yaml(&self.core_mode) {
            Ok(v) => v,
            Err(e) => {
                return Err(e);
            },
        };
        mapping_put(&mut output, "CoreMode".to_owned(), v);
        Ok(Yaml::hash(output))
    }
}

/// The titles shown on a chapter's complete screen.
pub struct CompleteScreenTitle {
    pub a_side: String,
    pub b_side: Option<String>,
    pub c_side: Option<String>,
    pub full_clear: Option<String>,
}

impl FromYaml for CompleteScreenTitle {
    open spec fn readable(y: YamlV) -> bool {
        <String as FromYaml>::readable(field_node(y, "ASide"@))
    }

    open spec fn reads_as(y: YamlV, x: CompleteScreenTitle) -> bool {
        &&& <String as FromYaml>::reads_as(field_node(y, "ASide"@), x.a_side)
        &&& reads_opt::<String>(field_node(y, "BSide"@), x.b_side)
        &&& reads_opt::<String>(field_node(y, "CSide"@), x.c_side)
        &&& reads_opt::<String>(field_node(y, "FullClear"@), x.full_clear)
    }

    open spec fn read_error(y: YamlV) -> YamlParseErrorV {
        if !<String as FromYaml>::readable(field_node(y, "ASide"@)) {
            <String as FromYaml>::read_error(field_node(y, "ASide"@))
        } else {
            YamlParseErrorV::Custom(Seq::empty())
        }
    }

    open spec fn writable(x: CompleteScreenTitle) -> bool {
        true
    }

    open spec fn written(x: CompleteScreenTitle) -> YamlV {
        let m = Seq::<(YamlV, YamlV)>::empty();
        let m = put(m, YamlV::String("ASide"@), <String as FromYaml>::written(x.a_side));
        let m = put(m, YamlV::String("BSide"@), written_opt::<String>(x.b_side));
        let m = put(m, YamlV::String("CSide"@), written_opt::<String>(x.c_side));
        let m = put(m, YamlV::String("FullClear"@), written_opt::<String>(x.full_clear));
        YamlV::Mapping(m)
    }

    open spec fn write_error(x: CompleteScreenTitle) -> Seq<char> {
        Seq::empty()
    }

    open spec fn keeps(x: CompleteScreenTitle) -> bool {
        &&& <String as FromYaml>::keeps(x.a_side)
        &&& (x.b_side matches Some(v) ==> <String as FromYaml>::keeps(v))
        &&& (x.c_side matches Some(v) ==> <String as FromYaml>::keeps(v))
        &&& (x.full_clear matches Some(v) ==> <String as FromYaml>::keeps(v))
    }

    proof fn lemma_written_reads_back(x: CompleteScreenTitle) {
        reveal_strlit("ASide");
        reveal_strlit("BSide");
        reveal_strlit("CSide");
        reveal_strlit("FullClear");
        assert("ASide"@.len() == 5);
        assert("BSide"@.len() == 5);
        assert("CSide"@.len() == 5);
        assert("FullClear"@.len() == 9);
        assert("ASide"@[0] == 'A');
        assert("BSide"@[0] == 'B');
        assert("CSide"@[0] == 'C');
        let m0 = Seq::<(YamlV, YamlV)>::empty();
        let m1 = put(m0, YamlV::String("ASide"@), <String as FromYaml>::written(x.a_side));
        let m2 = put(m1, YamlV::String("BSide"@), written_opt::<String>(x.b_side));
        let m3 = put(m2, YamlV::String("CSide"@), written_opt::<String>(x.c_side));
        let m4 = put(m3, YamlV::String("FullClear"@), written_opt::<String>(x.full_clear));
        lemma_put_get(m3, "FullClear"@, written_opt::<String>(x.full_clear), "ASide"@);
        lemma_put_get(m2, "CSide"@, written_opt::<String>(x.c_side), "ASide"@);
        lemma_put_get(m1, "BSide"@, written_opt::<String>(x.b_side), "ASide"@);
        lemma_put_get(m0, "ASide"@, <String as FromYaml>::written(x.a_side), "ASide"@);
        <String as FromYaml>::lemma_written_reads_back(x.a_side);
        lemma_put_get(m3, "FullClear"@, written_opt::<String>(x.full_clear), "BSide"@);
        lemma_put_get(m2, "CSide"@, written_opt::<String>(x.c_side), "BSide"@);
        lemma_put_get(m1, "BSide"@, written_opt::<String>(x.b_side), "BSide"@);
        if let Some(v) = x.b_side {
            <String as FromYaml>::lemma_written_reads_back(v);
        }
        lemma_put_get(m3, "FullClear"@, written_opt::<String>(x.full_clear), "CSide"@);
        lemma_put_get(m2, "CSide"@, written_opt::<String>(x.c_side), "CSide"@);
        if let Some(v) = x.c_side {
            <String as FromYaml>::lemma_written_reads_back(v);
        }
        lemma_put_get(m3, "FullClear"@, written_opt::<String>(x.full_clear), "FullClear"@);
        if let Some(v) = x.full_clear {
            <String as FromYaml>::lemma_written_reads_back(v);
        }
    }

    proof fn lemma_read_keeps(y: YamlV, x: CompleteScreenTitle) {
        <String as FromYaml>::lemma_read_keeps(field_node(y, "ASide"@), x.a_side);
        if let Some(v) = x.b_side {
            <String as FromYaml>::lemma_read_keeps(field_node(y, "BSide"@), v);
        }
        if let Some(v) = x.c_side {
            <String as FromYaml>::lemma_read_keeps(field_node(y, "CSide"@), v);
        }
        if let Some(v) = x.full_clear {
            <String as FromYaml>::lemma_read_keeps(field_node(y, "FullClear"@), v);
        }
    }

    fn parse_from_yaml(yaml: &Yaml) -> (r: Result<CompleteScreenTitle, YamlParseError>) {
        let a_side = required_field::<String>(yaml, "ASide");
        let b_side = optional_field::<String>(yaml, "BSide");
        let c_side = optional_field::<String>(yaml, "CSide");
        let full_clear = optional_field::<String>(yaml, "FullClear");
        let a_side = match a_side {
            Ok(v) => v,
            Err(e) => {
                return Err(e);
            },
        };
        Ok(CompleteScreenTitle { a_side, b_side, c_side, full_clear })
    }

    fn to_yaml(&self) -> (r: Result<Yaml, YamlWriteError>) {
        let mut output: Vec<(Yaml, Yaml)> = Vec::new();
        assert(entries_view(output@) =~= Seq::<(YamlV, YamlV)>::empty());
        let v = match self.a_side.to_yaml() {
            Ok(v) => v,
            Err(e) => {
                return Err(e);
            },
        };
        mapping_put(&mut output, "ASide".to_owned(), v);
        let v = match opt_to_yaml(&self.b_side) {
            Ok(v) => v,
            Err(e) => {
                return Err(e);
            },
        };
        mapping_put(&mut output, "BSide".to_owned(), v);
        let v = match opt_to_yaml(&self.c_side) {
            Ok(v) => v,
            Err(e) => {
                return Err(e);
            },
        };
        mapping_put(&mut output, "CSide".to_owned(), v);
        let v = match opt_to_yaml(&self.full_clear) {
            Ok(v) => v,
            Err(e) => {
                return Err(e);
            },
        };
        mapping_put(&mut output, "FullClear".to_owned(), v);
        Ok(Yaml::hash(output))
    }
}

/// How a map changes the timing of its cassette blocks.
pub struct CassetteModifier {
    pub tempo_mult: Option<i32>,
    pub lead_beats: Option<i32>,
    pub beats_per_tick: Option<i32>,
    pub ticks_per_swap: Option<i32>,
    pub blocks: Option<i32>,
    pub beats_max: Option<i32>,
    pub beat_index_offset: Option<i32>,
    pub active_during_transitions: Option<bool>,
    pub old_behavior: Option<bool>,
}

impl FromYaml for CassetteModifier {
    open spec fn readable(y: YamlV) -> bool {
        true
    }

    open spec fn reads_as(y: YamlV, x: CassetteModifier) -> bool {
        &&& reads_opt::<i32>(field_node(y, "TempoMul"@), x.tempo_mult)
        &&& reads_opt::<i32>(field_node(y, "LeadBeats"@), x.lead_beats)
        &&& reads_opt::<i32>(field_node(y, "BeatsPerTick"@), x.beats_per_tick)
        &&& reads_opt::<i32>(field_node(y, "TicksPerSwap"@), x.ticks_per_swap)
        &&& reads_opt::<i32>(field_node(y, "Blocks"@), x.blocks)
        &&& reads_opt::<i32>(field_node(y, "BeatsMax"@), x.beats_max)
        &&& reads_opt::<i32>(field_node(y, "BeatIndexOffset"@), x.beat_index_offset)
        &&& reads_opt::<bool>(field_node(y, "ActiveDuringTransitions"@), x.active_during_transitions)
        &&& reads_opt::<bool>(field_node(y, "OldBehavior"@), x.old_behavior)
    }

    open spec fn read_error(y: YamlV) -> YamlParseErrorV {
        YamlParseErrorV::Custom(Seq::empty())
    }

    open spec fn writable(x: CassetteModifier) -> bool {
        true
    }

    open spec fn written(x: CassetteModifier) -> YamlV {
        let m = Seq::<(YamlV, YamlV)>::empty();
        let m = put(m, YamlV::String("TempoMul"@), written_opt::<i32>(x.tempo_mult));
        let m = put(m, YamlV::String("LeadBeats"@), written_opt::<i32>(x.lead_beats));
        let m = put(m, YamlV::String("BeatsPerTick"@), written_opt::<i32>(x.beats_per_tick));
        let m = put(m, YamlV::String("TicksPerSwap"@), written_opt::<i32>(x.ticks_per_swap));
        let m = put(m, YamlV::String("Blocks"@), written_opt::<i32>(x.blocks));
        let m = put(m, YamlV::String("BeatsMax"@), written_opt::<i32>(x.beats_max));
        let m = put(m, YamlV::String("BeatIndexOffset"@), written_opt::<i32>(x.beat_index_offset));
        let m = put(m, YamlV::String("ActiveDuringTransitions"@), written_opt::<bool>(x.active_during_transitions));
        let m = put(m, YamlV::String("OldBehavior"@), written_opt::<bool>(x.old_behavior));
        YamlV::Mapping(m)
    }

    open spec fn write_error(x: CassetteModifier) -> Seq<char> {
        Seq::empty()
    }

    open spec fn keeps(x: CassetteModifier) -> bool {
        &&& (x.tempo_mult matches Some(v) ==> <i32 as FromYaml>::keeps(v))
        &&& (x.lead_beats matches Some(v) ==> <i32 as FromYaml>::keeps(v))
        &&& (x.beats_per_tick matches Some(v) ==> <i32 as FromYaml>::keeps(v))
        &&& (x.ticks_per_swap matches Some(v) ==> <i32 as FromYaml>::keeps(v))
        &&& (x.blocks matches Some(v) ==> <i32 as FromYaml>::keeps(v))
        &&& (x.beats_max matches Some(v) ==> <i32 as FromYaml>::keeps(v))
        &&& (x.beat_index_offset matches Some(v) ==> <i32 as FromYaml>::keeps(v))
        &&& (x.active_during_transitions matches Some(v) ==> <bool as FromYaml>::keeps(v))
        &&& (x.old_behavior matches Some(v) ==> <bool as FromYaml>::keeps(v))
    }

    proof fn lemma_written_reads_back(x: CassetteModifier) {
        reveal_strlit("TempoMul");
        reveal_strlit("LeadBeats");
        reveal_strlit("BeatsPerTick");
        reveal_strlit("TicksPerSwap");
        reveal_strlit("Blocks");
        reveal_strlit("BeatsMax");
        reveal_strlit("BeatIndexOffset");
        reveal_strlit("ActiveDuringTransitions");
        reveal_strlit("OldBehavior");
        assert("TempoMul"@.len() == 8);
        assert("LeadBeats"@.len() == 9);
        assert("BeatsPerTick"@.len() == 12);
        assert("TicksPerSwap"@.len() == 12);
        assert("Blocks"@.len() == 6);
        assert("BeatsMax"@.len() == 8);
        assert("BeatIndexOffset"@.len() == 15);
        assert("ActiveDuringTransitions"@.len() == 23);
        assert("OldBehavior"@.len() == 11);
        assert("BeatsPerTick"@[0] == 'B');
        assert("TicksPerSwap"@[0] == 'T');
        assert("BeatsMax"@[0] == 'B');
        assert("TempoMul"@[0] == 'T');
        let m0 = Seq::<(YamlV, YamlV)>::empty();
        let m1 = put(m0, YamlV::String("TempoMul"@), written_opt::<i32>(x.tempo_mult));
        let m2 = put(m1, YamlV::String("LeadBeats"@), written_opt::<i32>(x.lead_beats));
        let m3 = put(m2, YamlV::String("BeatsPerTick"@), written_opt::<i32>(x.beats_per_tick));
        let m4 = put(m3, YamlV::String("TicksPerSwap"@), written_opt::<i32>(x.ticks_per_swap));
        let m5 = put(m4, YamlV::String("Blocks"@), written_opt::<i32>(x.blocks));
        let m6 = put(m5, YamlV::String("BeatsMax"@), written_opt::<i32>(x.beats_max));
        let m7 = put(m6, YamlV::String("BeatIndexOffset"@), written_opt::<i32>(x.beat_index_offset));
        let m8 = put(m7, YamlV::String("ActiveDuringTransitions"@), written_opt::<bool>(x.active_during_transitions));
        let m9 = put(m8, YamlV::String("OldBehavior"@), written_opt::<bool>(x.old_behavior));
        lemma_put_get(m8, "OldBehavior"@, written_opt::<bool>(x.old_behavior), "TempoMul"@);
        lemma_put_get(m7, "ActiveDuringTransitions"@, written_opt::<bool>(x.active_during_transitions), "TempoMul"@);
        lemma_put_get(m6, "BeatIndexOffset"@, written_opt::<i32>(x.beat_index_offset), "TempoMul"@);
        lemma_put_get(m5, "BeatsMax"@, written_opt::<i32>(x.beats_max), "TempoMul"@);
        lemma_put_get(m4, "Blocks"@, written_opt::<i32>(x.blocks), "TempoMul"@);
        lemma_put_get(m3, "TicksPerSwap"@, written_opt::<i32>(x.ticks_per_swap), "TempoMul"@);
        lemma_put_get(m2, "BeatsPerTick"@, written_opt::<i32>(x.beats_per_tick), "TempoMul"@);
        lemma_put_get(m1, "LeadBeats"@, written_opt::<i32>(x.lead_beats), "TempoMul"@);
        lemma_put_get(m0, "TempoMul"@, written_opt::<i32>(x.tempo_mult), "TempoMul"@);
        if let Some(v) = x.tempo_mult {
            <i32 as FromYaml>::lemma_written_reads_back(v);
        }
        lemma_put_get(m8, "OldBehavior"@, written_opt::<bool>(x.old_behavior), "LeadBeats"@);
        lemma_put_get(m7, "ActiveDuringTransitions"@, written_opt::<bool>(x.active_during_transitions), "LeadBeats"@);
        lemma_put_get(m6, "BeatIndexOffset"@, written_opt::<i32>(x.beat_index_offset), "LeadBeats"@);
        lemma_put_get(m5, "BeatsMax"@, written_opt::<i32>(x.beats_max), "LeadBeats"@);
        lemma_put_get(m4, "Blocks"@, written_opt::<i32>(x.blocks), "LeadBeats"@);
        lemma_put_get(m3, "TicksPerSwap"@, written_opt::<i32>(x.ticks_per_swap), "LeadBeats"@);
        lemma_put_get(m2, "BeatsPerTick"@, written_opt::<i32>(x.beats_per_tick), "LeadBeats"@);
        lemma_put_get(m1, "LeadBeats"@, written_opt::<i32>(x.lead_beats), "LeadBeats"@);
        if let Some(v) = x.lead_beats {
            <i32 as FromYaml>::lemma_written_reads_back(v);
        }
        lemma_put_get(m8, "OldBehavior"@, written_opt::<bool>(x.old_behavior), "BeatsPerTick"@);
        lemma_put_get(m7, "ActiveDuringTransitions"@, written_opt::<bool>(x.active_during_transitions), "BeatsPerTick"@);
        lemma_put_get(m6, "BeatIndexOffset"@, written_opt::<i32>(x.beat_index_offset), "BeatsPerTick"@);
        lemma_put_get(m5, "BeatsMax"@, written_opt::<i32>(x.beats_max), "BeatsPerTick"@);
        lemma_put_get(m4, "Blocks"@, written_opt::<i32>(x.blocks), "BeatsPerTick"@);
        lemma_put_get(m3, "TicksPerSwap"@, written_opt::<i32>(x.ticks_per_swap), "BeatsPerTick"@);
        lemma_put_get(m2, "BeatsPerTick"@, written_opt::<i32>(x.beats_per_tick), "BeatsPerTick"@);
        if let Some(v) = x.beats_per_tick {
            <i32 as FromYaml>::lemma_written_reads_back(v);
        }
        lemma_put_get(m8, "OldBehavior"@, written_opt::<bool>(x.old_behavior), "TicksPerSwap"@);
        lemma_put_get(m7, "ActiveDuringTransitions"@, written_opt::<bool>(x.active_during_transitions), "TicksPerSwap"@);
        lemma_put_get(m6, "BeatIndexOffset"@, written_opt::<i32>(x.beat_index_offset), "TicksPerSwap"@);
        lemma_put_get(m5, "BeatsMax"@, written_opt::<i32>(x.beats_max), "TicksPerSwap"@);
        lemma_put_get(m4, "Blocks"@, written_opt::<i32>(x.blocks), "TicksPerSwap"@);
        lemma_put_get(m3, "TicksPerSwap"@, written_opt::<i32>(x.ticks_per_swap), "TicksPerSwap"@);
        if let Some(v) = x.ticks_per_swap {
            <i32 as FromYaml>::lemma_written_reads_back(v);
        }
        lemma_put_get(m8, "OldBehavior"@, written_opt::<bool>(x.old_behavior), "Blocks"@);
        lemma_put_get(m7, "ActiveDuringTransitions"@, written_opt::<bool>(x.active_during_transitions), "Blocks"@);
        lemma_put_get(m6, "BeatIndexOffset"@, written_opt::<i32>(x.beat_index_offset), "Blocks"@);
        lemma_put_get(m5, "BeatsMax"@, written_opt::<i32>(x.beats_max), "Blocks"@);
        lemma_put_get(m4, "Blocks"@, written_opt::<i32>(x.blocks), "Blocks"@);
        if let Some(v) = x.blocks {
            <i32 as FromYaml>::lemma_written_reads_back(v);
        }
        lemma_put_get(m8, "OldBehavior"@, written_opt::<bool>(x.old_behavior), "BeatsMax"@);
        lemma_put_get(m7, "ActiveDuringTransitions"@, written_opt::<bool>(x.active_during_transitions), "BeatsMax"@);
        lemma_put_get(m6, "BeatIndexOffset"@, written_opt::<i32>(x.beat_index_offset), "BeatsMax"@);
        lemma_put_get(m5, "BeatsMax"@, written_opt::<i32>(x.beats_max), "BeatsMax"@);
        if let Some(v) = x.beats_max {
            <i32 as FromYaml>::lemma_written_reads_back(v);
        }
        lemma_put_get(m8, "OldBehavior"@, written_opt::<bool>(x.old_behavior), "BeatIndexOffset"@);
        lemma_put_get(m7, "ActiveDuringTransitions"@, written_opt::<bool>(x.active_during_transitions), "BeatIndexOffset"@);
        lemma_put_get(m6, "BeatIndexOffset"@, written_opt::<i32>(x.beat_index_offset), "BeatIndexOffset"@);
        if let Some(v) = x.beat_index_offset {
            <i32 as FromYaml>::lemma_written_reads_back(v);
        }
        lemma_put_get(m8, "OldBehavior"@, written_opt::<bool>(x.old_behavior), "ActiveDuringTransitions"@);
        lemma_put_get(m7, "ActiveDuringTransitions"@, written_opt::<bool>(x.active_during_transitions), "ActiveDuringTransitions"@);
        if let Some(v) = x.active_during_transitions {
            <bool as FromYaml>::lemma_written_reads_back(v);
        }
        lemma_put_get(m8, "OldBehavior"@, written_opt::<bool>(x.old_behavior), "OldBehavior"@);
        if let Some(v) = x.old_behavior {
            <bool as FromYaml>::lemma_written_reads_back(v);
        }
    }

    proof fn lemma_read_keeps(y: YamlV, x: CassetteModifier) {
        if let Some(v) = x.tempo_mult {
            <i32 as FromYaml>::lemma_read_keeps(field_node(y, "TempoMul"@), v);
        }
        if let Some(v) = x.lead_beats {
            <i32 as FromYaml>::lemma_read_keeps(field_node(y, "LeadBeats"@), v);
        }
        if let Some(v) = x.beats_per_tick {
            <i32 as FromYaml>::lemma_read_keeps(field_node(y, "BeatsPerTick"@), v);
        }
        if let Some(v) = x.ticks_per_swap {
            <i32 as FromYaml>::lemma_read_keeps(field_node(y, "TicksPerSwap"@), v);
        }
        if let Some(v) = x.blocks {
            <i32 as FromYaml>::lemma_read_keeps(field_node(y, "Blocks"@), v);
        }
        if let Some(v) = x.beats_max {
            <i32 as FromYaml>::lemma_read_keeps(field_node(y, "BeatsMax"@), v);
        }
        if let Some(v) = x.beat_index_offset {
            <i32 as FromYaml>::lemma_read_keeps(field_node(y, "BeatIndexOffset"@), v);
        }
        if let Some(v) = x.active_during_transitions {
            <bool as FromYaml>::lemma_read_keeps(field_node(y, "ActiveDuringTransitions"@), v);
        }
        if let Some(v) = x.old_behavior {
            <bool as FromYaml>::lemma_read_keeps(field_node(y, "OldBehavior"@), v);
        }
    }

    fn parse_from_yaml(yaml: &Yaml) -> (r: Result<CassetteModifier, YamlParseError>) {
        let tempo_mult = optional_field::<i32>(yaml, "TempoMul");
        let lead_beats = optional_field::<i32>(yaml, "LeadBeats");
        let beats_per_tick = optional_field::<i32>(yaml, "BeatsPerTick");
        let ticks_per_swap = optional_field::<i32>(yaml, "TicksPerSwap");
        let blocks = optional_field::<i32>(yaml, "Blocks");
        let beats_max = optional_field::<i32>(yaml, "BeatsMax");
        let beat_index_offset = optional_field::<i32>(yaml, "BeatIndexOffset");
        let active_during_transitions = optional_field::<bool>(yaml, "ActiveDuringTransitions");
        let old_behavior = optional_field::<bool>(yaml, "OldBehavior");
        Ok(CassetteModifier { tempo_mult, lead_beats, beats_per_tick, ticks_per_swap, blocks, beats_max, beat_index_offset, active_during_transitions, old_behavior })
    }

    fn to_yaml(&self) -> (r: Result<Yaml, YamlWriteError>) {
        let mut output: Vec<(Yaml, Yaml)> = Vec::new();
        assert(entries_view(output@) =~= Seq::<(YamlV, YamlV)>::empty());
        let v = match opt_to_yaml(&self.tempo_mult) {
            Ok(v) => v,
            Err(e) => {
                return Err(e);
            },
        };
        mapping_put(&mut output, "TempoMul".to_owned(), v);
        let v = match opt_to_yaml(&self.lead_beats) {
            Ok(v) => v,
            Err(e) => {
                return Err(e);
            },
        };
        mapping_put(&mut output, "LeadBeats".to_owned(), v);
        let v = match opt_to_yaml(&self.beats_per_tick) {
            Ok(v) => v,
            Err(e) => {
                return Err(e);
            },
        };
        mapping_put(&mut output, "BeatsPerTick".to_owned(), v);
        let v = match opt_to_yaml(&self.ticks_per_swap) {
            Ok(v) => v,
            Err(e) => {
                return Err(e);
            },
        };
        mapping_put(&mut output, "TicksPerSwap".to_owned(), v);
        let v = match opt_to_yaml(&self.blocks) {
            Ok(v) => v,
            Err(e) => {
                return Err(e);
            },
        };
        mapping_put(&mut output, "Blocks".to_owned(), v);
        let v = match opt_to_yaml(&self.beats_max) {
            Ok(v) => v,
            Err(e) => {
                return Err(e);
            },
        };
        mapping_put(&mut output, "BeatsMax".to_owned(), v);
        let v = match opt_to_yaml(&self.beat_index_offset) {
            Ok(v) => v,
            Err(e) => {
                return Err(e);
            },
        };
        mapping_put(&mut output, "BeatIndexOffset".to_owned(), v);
        let v = match opt_to_yaml(&self.active_during_transitions) {
            Ok(v) => v,
            Err(e) => {
                return Err(e);
            },
        };
        mapping_put(&mut output, "ActiveDuringTransitions".to_owned(), v);
        let v = match opt_to_yaml(&self.old_behavior) {
            Ok(v) => v,
            Err(e) => {
                return Err(e);
            },
        };
        mapping_put(&mut output, "OldBehavior".to_owned(), v);
        Ok(Yaml::hash(output))
    }
}

/// The metadata of a map's alternate sides.
pub struct AltSidesMeta {}

/// How the player enters a map.
#[derive(Clone, Copy, Debug, PartialEq, Eq, Structural)]
pub enum IntroTypes {
    Transition,
    Respawn,
    WalkInRight,
    WalkInLeft,
    Jump,
    WakeUp,
    Fall,
    TempleMirrorVoid,
    /// Written as `None`.
    NoIntro,
    ThinkForABit,
}

impl IntroTypes {
    /// The name the variant is written under.
    pub open spec fn variant_name(self) -> Seq<char> {
        match self {
            IntroTypes::Transition => "Transition"@,
            IntroTypes::Respawn => "Respawn"@,
            IntroTypes::WalkInRight => "WalkInRight"@,
            IntroTypes::WalkInLeft => "WalkInLeft"@,
            IntroTypes::Jump => "Jump"@,
            IntroTypes::WakeUp => "WakeUp"@,
            IntroTypes::Fall => "Fall"@,
            IntroTypes::TempleMirrorVoid => "TempleMirrorVoid"@,
            IntroTypes::NoIntro => "None"@,
            IntroTypes::ThinkForABit => "ThinkForABit"@,
        }
    }

    /// The variant written under `s`.
    pub open spec fn from_name(s: Seq<char>) -> Option<IntroTypes> {
        if s == "Transition"@ {
            Some(IntroTypes::Transition)
        } else if s == "Respawn"@ {
            Some(IntroTypes::Respawn)
        } else if s == "WalkInRight"@ {
            Some(IntroTypes::WalkInRight)
        } else if s == "WalkInLeft"@ {
            Some(IntroTypes::WalkInLeft)
        } else if s == "Jump"@ {
            Some(IntroTypes::Jump)
        } else if s == "WakeUp"@ {
            Some(IntroTypes::WakeUp)
        } else if s == "Fall"@ {
            Some(IntroTypes::Fall)
        } else if s == "TempleMirrorVoid"@ {
            Some(IntroTypes::TempleMirrorVoid)
        } else if s == "None"@ {
            Some(IntroTypes::NoIntro)
        } else if s == "ThinkForABit"@ {
            Some(IntroTypes::ThinkForABit)
        } else {
            None
        }
    }
}

impl FromYaml for IntroTypes {
    open spec fn readable(y: YamlV) -> bool {
        y matches YamlV::String(s) && IntroTypes::from_name(s) is Some
    }

    open spec fn reads_as(y: YamlV, x: IntroTypes) -> bool {
        y == YamlV::String(x.variant_name())
    }

    open spec fn read_error(y: YamlV) -> YamlParseErrorV {
        match y {
            YamlV::String(s) => YamlParseErrorV::UnknownVariant("IntroTypes"@, s),
            _ => YamlParseErrorV::Custom("Could not find a matching 'IntroTypes' variant when parsing"@),
        }
    }

    open spec fn writable(x: IntroTypes) -> bool {
        true
    }

    open spec fn written(x: IntroTypes) -> YamlV {
        YamlV::String(x.variant_name())
    }

    open spec fn write_error(x: IntroTypes) -> Seq<char> {
        Seq::empty()
    }

    open spec fn keeps(x: IntroTypes) -> bool {
        true
    }

    proof fn lemma_written_reads_back(x: IntroTypes) {
        reveal_strlit("Transition");
        reveal_strlit("Respawn");
        reveal_strlit("WalkInRight");
        reveal_strlit("WalkInLeft");
        reveal_strlit("Jump");
        reveal_strlit("WakeUp");
        reveal_strlit("Fall");
        reveal_strlit("TempleMirrorVoid");
        reveal_strlit("None");
        reveal_strlit("ThinkForABit");
        assert("Transition"@.len() == 10);
        assert("Respawn"@.len() == 7);
        assert("WalkInRight"@.len() == 11);
        assert("WalkInLeft"@.len() == 10);
        assert("Jump"@.len() == 4);
        assert("WakeUp"@.len() == 6);
        assert("Fall"@.len() == 4);
        assert("TempleMirrorVoid"@.len() == 16);
        assert("None"@.len() == 4);
        assert("ThinkForABit"@.len() == 12);
        assert("Transition"@[0] == 'T');
        assert("WalkInLeft"@[0] == 'W');
        assert("Jump"@[0] == 'J');
        assert("None"@[0] == 'N');
        assert("Fall"@[0] == 'F');
    }

    proof fn lemma_read_keeps(y: YamlV, x: IntroTypes) {
    }

    fn parse_from_yaml(yaml: &Yaml) -> (r: Result<IntroTypes, YamlParseError>) {
        let s = match yaml.as_str() {
            Some(s) => s,
            None => {
                return Err(YamlParseError::Custom("Could not find a matching 'IntroTypes' variant when parsing".to_owned()));
            },
        };
        if str_eq(s, "Transition") {
            Ok(IntroTypes::Transition)
        } else if str_eq(s, "Respawn") {
            Ok(IntroTypes::Respawn)
        } else if str_eq(s, "WalkInRight") {
            Ok(IntroTypes::WalkInRight)
        } else if str_eq(s, "WalkInLeft") {
            Ok(IntroTypes::WalkInLeft)
        } else if str_eq(s, "Jump") {
            Ok(IntroTypes::Jump)
        } else if str_eq(s, "WakeUp") {
            Ok(IntroTypes::WakeUp)
        } else if str_eq(s, "Fall") {
            Ok(IntroTypes::Fall)
        } else if str_eq(s, "TempleMirrorVoid") {
            Ok(IntroTypes::TempleMirrorVoid)
        } else if str_eq(s, "None") {
            Ok(IntroTypes::NoIntro)
        } else if str_eq(s, "ThinkForABit") {
            Ok(IntroTypes::ThinkForABit)
        } else {
            Err(YamlParseError::UnknownVariant("IntroTypes", s.to_owned()))
        }
    }

    fn to_yaml(&self) -> (r: Result<Yaml, YamlWriteError>) {
        let name = match self {
            IntroTypes::Transition => "Transition",
            IntroTypes::Respawn => "Respawn",
            IntroTypes::WalkInRight => "WalkInRight",
            IntroTypes::WalkInLeft => "WalkInLeft",
            IntroTypes::Jump => "Jump",
            IntroTypes::WakeUp => "WakeUp",
            IntroTypes::Fall => "Fall",
            IntroTypes::TempleMirrorVoid => "TempleMirrorVoid",
            IntroTypes::NoIntro => "None",
            IntroTypes::ThinkForABit => "ThinkForABit",
        };
        Ok(Yaml::string(name.to_owned()))
    }
}

} // verus!
