//! The plug-in's parameters by their text ids, as the host and the editor
//! name them, and the choice values that the editor may send as text.

use vstd::prelude::*;
use crate::text::same_text;

verus! {

/// One of the plug-in's parameters.
#[derive(Clone, Copy, Debug, PartialEq, Eq, Structural)]
pub enum ParamId {
    Width,
    WidthLow,
    WidthMid,
    WidthHigh,
    XoverLoHz,
    XoverHiHz,
    MonoBassOn,
    MonoBassHz,
    OutputGainDb,
    Bypass,
}

/// The text id of each parameter.
pub open spec fn spec_param_text(p: ParamId) -> Seq<char> {
    match p {
        ParamId::Width => "width"@,
        ParamId::WidthLow => "width_low"@,
        ParamId::WidthMid => "width_mid"@,
        ParamId::WidthHigh => "width_high"@,
        ParamId::XoverLoHz => "xover_lo_hz"@,
        ParamId::XoverHiHz => "xover_hi_hz"@,
        ParamId::MonoBassOn => "mono_bass_on"@,
        ParamId::MonoBassHz => "mono_bass_hz"@,
        ParamId::OutputGainDb => "output_gain_db"@,
        ParamId::Bypass => "bypass"@,
    }
}

/// The parameter whose text id is `id`, if any.
pub open spec fn spec_param_from_text(id: Seq<char>) -> Option<ParamId> {
    if id == "width"@ {
        Some(ParamId::Width)
    } else if id == "width_low"@ {
        Some(ParamId::WidthLow)
    } else if id == "width_mid"@ {
        Some(ParamId::WidthMid)
    } else if id == "width_high"@ {
        Some(ParamId::WidthHigh)
    } else if id == "xover_lo_hz"@ {
        Some(ParamId::XoverLoHz)
    } else if id == "xover_hi_hz"@ {
        Some(ParamId::XoverHiHz)
    } else if id == "mono_bass_on"@ {
        Some(ParamId::MonoBassOn)
    } else if id == "mono_bass_hz"@ {
        Some(ParamId::MonoBassHz)
    } else if id == "output_gain_db"@ {
        Some(ParamId::OutputGainDb)
    } else if id == "bypass"@ {
        Some(ParamId::Bypass)
    } else {
        None
    }
}

impl ParamId {
    /// The parameter's text id.
    pub fn text_id(&self) -> (t: &'static str)
        ensures
            t@ == spec_param_text(*self),
    {
        match self {
            ParamId::Width => "width",
            ParamId::WidthLow => "width_low",
            ParamId::WidthMid => "width_mid",
            ParamId::WidthHigh => "width_high",
            ParamId::XoverLoHz => "xover_lo_hz",
            ParamId::XoverHiHz => "xover_hi_hz",
            ParamId::MonoBassOn => "mono_bass_on",
            ParamId::MonoBassHz => "mono_bass_hz",
            ParamId::OutputGainDb => "output_gain_db",
            ParamId::Bypass => "bypass",
        }
    }

    /// The parameter with text id `id`, if there is one.
    pub fn from_text_id(id: &str) -> (p: Option<ParamId>)
        ensures
            p == spec_param_from_text(id@),
    {
        if same_text(id, "width") {
            Some(ParamId::Width)
        } else if same_text(id, "width_low") {
            Some(ParamId::WidthLow)
        } else if same_text(id, "width_mid") {
            Some(ParamId::WidthMid)
        } else if same_text(id, "width_high") {
            Some(ParamId::WidthHigh)
        } else if same_text(id, "xover_lo_hz") {
            Some(ParamId::XoverLoHz)
        } else if same_text(id, "xover_hi_hz") {
            Some(ParamId::XoverHiHz)
        } else if same_text(id, "mono_bass_on") {
            Some(ParamId::MonoBassOn)
        } else if same_text(id, "mono_bass_hz") {
            Some(ParamId::MonoBassHz)
        } else if same_text(id, "output_gain_db") {
            Some(ParamId::OutputGainDb)
        } else if same_text(id, "bypass") {
            Some(ParamId::Bypass)
        } else {
            None
        }
    }
}

/// Text ids and parameters correspond one to one: a text names parameter
/// `p` exactly when it is `p`'s text id.
pub proof fn lemma_text_ids_name_one_param(p: ParamId, id: Seq<char>)
    ensures
        spec_param_from_text(id) == Some(p) <==> id == spec_param_text(p),
{
    reveal_strlit("width");
    reveal_strlit("width_low");
    reveal_strlit("width_mid");
    reveal_strlit("width_high");
    reveal_strlit("xover_lo_hz");
    reveal_strlit("xover_hi_hz");
    reveal_strlit("mono_bass_on");
    reveal_strlit("mono_bass_hz");
    reveal_strlit("output_gain_db");
    reveal_strlit("bypass");
    assert("width"@.len() == 5);
    assert("width_low"@.len() == 9);
    assert("width_mid"@.len() == 9);
    assert("width_high"@.len() == 10);
    assert("xover_lo_hz"@.len() == 11);
    assert("xover_hi_hz"@.len() == 11);
    assert("mono_bass_on"@.len() == 12);
    assert("mono_bass_hz"@.len() == 12);
    assert("output_gain_db"@.len() == 14);
    assert("bypass"@.len() == 6);
    assert("width_low"@[6] != "width_mid"@[6]);
    assert("xover_lo_hz"@[6] != "xover_hi_hz"@[6]);
    assert("mono_bass_on"@[10] != "mono_bass_hz"@[10]);
}

/// The ids the host and the web view use: each parameter's id, and the
/// parameter each id names (the `#[id]` of each field of the parameter set).
/// Any other text names no parameter (`lemma_text_ids_name_one_param`).
pub proof fn lemma_param_id_table()
    ensures
        spec_param_text(ParamId::Width) == "width"@,
        spec_param_from_text("width"@) == Some(ParamId::Width),
        spec_param_text(ParamId::WidthLow) == "width_low"@,
        spec_param_from_text("width_low"@) == Some(ParamId::WidthLow),
        spec_param_text(ParamId::WidthMid) == "width_mid"@,
        spec_param_from_text("width_mid"@) == Some(ParamId::WidthMid),
        spec_param_text(ParamId::WidthHigh) == "width_high"@,
        spec_param_from_text("width_high"@) == Some(ParamId::WidthHigh),
        spec_param_text(ParamId::XoverLoHz) == "xover_lo_hz"@,
        spec_param_from_text("xover_lo_hz"@) == Some(ParamId::XoverLoHz),
        spec_param_text(ParamId::XoverHiHz) == "xover_hi_hz"@,
        spec_param_from_text("xover_hi_hz"@) == Some(ParamId::XoverHiHz),
        spec_param_text(ParamId::MonoBassOn) == "mono_bass_on"@,
        spec_param_from_text("mono_bass_on"@) == Some(ParamId::MonoBassOn),
        spec_param_text(ParamId::MonoBassHz) == "mono_bass_hz"@,
        spec_param_from_text("mono_bass_hz"@) == Some(ParamId::MonoBassHz),
        spec_param_text(ParamId::OutputGainDb) == "output_gain_db"@,
        spec_param_from_text("output_gain_db"@) == Some(ParamId::OutputGainDb),
        spec_param_text(ParamId::Bypass) == "bypass"@,
        spec_param_from_text("bypass"@) == Some(ParamId::Bypass),
{
    lemma_text_ids_name_one_param(ParamId::Width, "width"@);
    lemma_text_ids_name_one_param(ParamId::WidthLow, "width_low"@);
    lemma_text_ids_name_one_param(ParamId::WidthMid, "width_mid"@);
    lemma_text_ids_name_one_param(ParamId::WidthHigh, "width_high"@);
    lemma_text_ids_name_one_param(ParamId::XoverLoHz, "xover_lo_hz"@);
    lemma_text_ids_name_one_param(ParamId::XoverHiHz, "xover_hi_hz"@);
    lemma_text_ids_name_one_param(ParamId::MonoBassOn, "mono_bass_on"@);
    lemma_text_ids_name_one_param(ParamId::MonoBassHz, "mono_bass_hz"@);
    lemma_text_ids_name_one_param(ParamId::OutputGainDb, "output_gain_db"@);
    lemma_text_ids_name_one_param(ParamId::Bypass, "bypass"@);
}

/// The variant index that the choice text `s` stands for under the choice
/// parameter `param_id`, for the choice parameters the editor may send as
/// text; nothing for any other pair.
pub open spec fn spec_choice_index(param_id: Seq<char>, s: Seq<char>) -> Option<u32> {
    if param_id == "rev_type"@ {
        if s == "room"@ {
            Some(0)
        } else if s == "hall"@ {
            Some(1)
        } else if s == "plate"@ {
            Some(2)
        } else if s == "spring"@ {
            Some(3)
        } else {
            None
        }
    } else if param_id == "sc_source"@ {
        if s == "internal"@ {
            Some(0)
        } else if s == "sidechain"@ {
            Some(1)
        } else {
            None
        }
    } else if param_id == "lfo_shape"@ {
        if s == "sine"@ {
            Some(0)
        } else if s == "tri"@ {
            Some(1)
        } else if s == "saw"@ {
            Some(2)
        } else if s == "square"@ {
            Some(3)
        } else if s == "s&h"@ {
            Some(4)
        } else {
            None
        }
    } else if param_id == "lfo_target"@ {
        if s == "rev_wet"@ {
            Some(0)
        } else if s == "dly_wet"@ {
            Some(1)
        } else if s == "dly_fb"@ {
            Some(2)
        } else if s == "filter"@ {
            Some(3)
        } else {
            None
        }
    } else if param_id == "routing"@ {
        if s == "parallel"@ {
            Some(0)
        } else if s == "rev_to_dly"@ {
            Some(1)
        } else if s == "dly_to_rev"@ {
            Some(2)
        } else {
            None
        }
    } else {
        None
    }
}

/// The variant index that the editor's choice text `s` stands for under
/// `param_id`; see `spec_choice_index`.
pub fn choice_index(param_id: &str, s: &str) -> (r: Option<u32>)
    ensures
        r == spec_choice_index(param_id@, s@),
{
    if same_text(param_id, "rev_type") {
        if same_text(s, "room") {
            Some(0)
        } else if same_text(s, "hall") {
            Some(1)
        } else if same_text(s, "plate") {
            Some(2)
        } else if same_text(s, "spring") {
            Some(3)
        } else {
            None
        }
    } else if same_text(param_id, "sc_source") {
        if same_text(s, "internal") {
            Some(0)
        } else if same_text(s, "sidechain") {
            Some(1)
        } else {
            None
        }
    } else if same_text(param_id, "lfo_shape") {
        if same_text(s, "sine") {
            Some(0)
        } else if same_text(s, "tri") {
            Some(1)
        } else if same_text(s, "saw") {
            Some(2)
        } else if same_text(s, "square") {
            Some(3)
        } else if same_text(s, "s&h") {
            Some(4)
        } else {
            None
        }
    } else if same_text(param_id, "lfo_target") {
        if same_text(s, "rev_wet") {
            Some(0)
        } else if same_text(s, "dly_wet") {
            Some(1)
        } else if same_text(s, "dly_fb") {
            Some(2)
        } else if same_text(s, "filter") {
            Some(3)
        } else {
            None
        }
    } else if same_text(param_id, "routing") {
        if same_text(s, "parallel") {
            Some(0)
        } else if same_text(s, "rev_to_dly") {
            Some(1)
        } else if same_text(s, "dly_to_rev") {
            Some(2)
        } else {
            None
        }
    } else {
        None
    }
}

/// The choice texts and their indices, as the editor sends them: each
/// choice parameter's values in order from 0.
pub proof fn lemma_choice_table()
    ensures
        spec_choice_index("rev_type"@, "room"@) == Some(0u32),
        spec_choice_index("rev_type"@, "hall"@) == Some(1u32),
        spec_choice_index("rev_type"@, "plate"@) == Some(2u32),
        spec_choice_index("rev_type"@, "spring"@) == Some(3u32),
        spec_choice_index("sc_source"@, "internal"@) == Some(0u32),
        spec_choice_index("sc_source"@, "sidechain"@) == Some(1u32),
        spec_choice_index("lfo_shape"@, "sine"@) == Some(0u32),
        spec_choice_index("lfo_shape"@, "tri"@) == Some(1u32),
        spec_choice_index("lfo_shape"@, "saw"@) == Some(2u32),
        spec_choice_index("lfo_shape"@, "square"@) == Some(3u32),
        spec_choice_index("lfo_shape"@, "s&h"@) == Some(4u32),
        spec_choice_index("lfo_target"@, "rev_wet"@) == Some(0u32),
        spec_choice_index("lfo_target"@, "dly_wet"@) == Some(1u32),
        spec_choice_index("lfo_target"@, "dly_fb"@) == Some(2u32),
        spec_choice_index("lfo_target"@, "filter"@) == Some(3u32),
        spec_choice_index("routing"@, "parallel"@) == Some(0u32),
        spec_choice_index("routing"@, "rev_to_dly"@) == Some(1u32),
        spec_choice_index("routing"@, "dly_to_rev"@) == Some(2u32),
{
    reveal_strlit("dly_fb");
    reveal_strlit("dly_to_rev");
    reveal_strlit("dly_wet");
    reveal_strlit("filter");
    reveal_strlit("hall");
    reveal_strlit("internal");
    reveal_strlit("lfo_shape");
    reveal_strlit("lfo_target");
    reveal_strlit("parallel");
    reveal_strlit("plate");
    reveal_strlit("rev_to_dly");
    reveal_strlit("rev_type");
    reveal_strlit("rev_wet");
    reveal_strlit("room");
    reveal_strlit("routing");
    reveal_strlit("s&h");
    reveal_strlit("saw");
    reveal_strlit("sc_source");
    reveal_strlit("sidechain");
    reveal_strlit("sine");
    reveal_strlit("spring");
    reveal_strlit("square");
    reveal_strlit("tri");
    assert("dly_fb"@.len() == 6);
    assert("dly_fb"@[0] == 'd' && "dly_fb"@[1] == 'l');
    assert("dly_to_rev"@.len() == 10);
    assert("dly_to_rev"@[0] == 'd' && "dly_to_rev"@[1] == 'l');
    assert("dly_wet"@.len() == 7);
    assert("dly_wet"@[0] == 'd' && "dly_wet"@[1] == 'l');
    assert("filter"@.len() == 6);
    assert("filter"@[0] == 'f' && "filter"@[1] == 'i');
    assert("hall"@.len() == 4);
    assert("hall"@[0] == 'h' && "hall"@[1] == 'a');
    assert("internal"@.len() == 8);
    assert("internal"@[0] == 'i' && "internal"@[1] == 'n');
    assert("lfo_shape"@.len() == 9);
    assert("lfo_shape"@[0] == 'l' && "lfo_shape"@[1] == 'f');
    assert("lfo_target"@.len() == 10);
    assert("lfo_target"@[0] == 'l' && "lfo_target"@[1] == 'f');
    assert("parallel"@.len() == 8);
    assert("parallel"@[0] == 'p' && "parallel"@[1] == 'a');
    assert("plate"@.len() == 5);
    assert("plate"@[0] == 'p' && "plate"@[1] == 'l');
    assert("rev_to_dly"@.len() == 10);
    assert("rev_to_dly"@[0] == 'r' && "rev_to_dly"@[1] == 'e');
    assert("rev_type"@.len() == 8);
    assert("rev_type"@[0] == 'r' && "rev_type"@[1] == 'e');
    assert("rev_wet"@.len() == 7);
    assert("rev_wet"@[0] == 'r' && "rev_wet"@[1] == 'e');
    assert("room"@.len() == 4);
    assert("room"@[0] == 'r' && "room"@[1] == 'o');
    assert("routing"@.len() == 7);
    assert("routing"@[0] == 'r' && "routing"@[1] == 'o');
    assert("s&h"@.len() == 3);
    assert("s&h"@[0] == 's' && "s&h"@[1] == '&');
    assert("saw"@.len() == 3);
    assert("saw"@[0] == 's' && "saw"@[1] == 'a');
    assert("sc_source"@.len() == 9);
    assert("sc_source"@[0] == 's' && "sc_source"@[1] == 'c');
    assert("sidechain"@.len() == 9);
    assert("sidechain"@[0] == 's' && "sidechain"@[1] == 'i');
    assert("sine"@.len() == 4);
    assert("sine"@[0] == 's' && "sine"@[1] == 'i');
    assert("spring"@.len() == 6);
    assert("spring"@[0] == 's' && "spring"@[1] == 'p');
    assert("square"@.len() == 6);
    assert("square"@[0] == 's' && "square"@[1] == 'q');
    assert("tri"@.len() == 3);
    assert("tri"@[0] == 't' && "tri"@[1] == 'r');
}

} // verus!
