//! Decisions of the plugin's main thread that do not depend on the host's
//! types: the audio port and parameter descriptions it reports, the values
//! it reads back, and which GUI configurations it accepts.
use crate::plugin::params::ReverbParamsShared;
use crate::plugin::params::PARAM_COUNT;
use crate::util::float_bits::ONE_BITS;
use crate::util::float_bits::POINT_SIX_BITS;
use crate::util::float_bits::ZERO_BITS;
use vstd::prelude::*;

verus! {

/// Identifier of the feedback ("size") parameter.
pub const PARAM_FEEDBACK_ID: u32 = 0;

/// Identifier of the cut-off ("filter") parameter.
pub const PARAM_CUT_OFF_ID: u32 = 1;

/// Identifier of the mix parameter.
pub const PARAM_MIX_ID: u32 = 2;

/// Default feedback, 0.6, as an `f32` bit pattern.
pub const DEFAULT_FEEDBACK: u32 = POINT_SIX_BITS;

/// Default cut-off, 1.0, as an `f32` bit pattern.
pub const DEFAULT_CUT_OFF: u32 = ONE_BITS;

/// Default mix, 1.0, as an `f32` bit pattern.
pub const DEFAULT_MIX: u32 = ONE_BITS;

/// Width of the editor window, in pixels.
pub const GUI_WIDTH: u32 = 400;

/// Height of the editor window, in pixels.
pub const GUI_HEIGHT: u32 = 200;

/// What the plugin reports of one audio port.
pub struct AudioPortSpec {
    pub id: u32,
    pub name: &'static str,
    pub channel_count: u32,
    pub is_main: bool,
    pub is_stereo: bool,
}

/// What the plugin reports of one parameter: an automatable value between
/// `min_value` and `max_value` (bit patterns of `f32`s).
pub struct ParamInfoSpec {
    pub id: u32,
    pub name: &'static str,
    pub min_value: u32,
    pub max_value: u32,
    pub default_value: u32,
    pub is_automatable: bool,
}

/// Why a GUI configuration is refused.
#[derive(Debug, Clone, Copy, PartialEq, Eq, Structural)]
pub enum GuiConfigError {
    /// The host asked for a floating window.
    FloatingNotSupported,
    /// The host asked for another windowing API than the platform's default.
    UnsupportedApi,
}

impl GuiConfigError {
    /// The message the host is given.
    pub fn message(&self) -> (res: &'static str)
        ensures
            self is FloatingNotSupported ==> res@
                == "Invalid GUI configuration: this plugin does not support floating mode"@,
            self is UnsupportedApi ==> res@ == "Invalid GUI configuration: unsupported API type"@,
    {
        match self {
            GuiConfigError::FloatingNotSupported => {
                "Invalid GUI configuration: this plugin does not support floating mode"
            },
            GuiConfigError::UnsupportedApi => "Invalid GUI configuration: unsupported API type",
        }
    }
}

/// The answer to a request for a GUI: a floating window is refused first,
/// then any API but the platform's default.
pub open spec fn gui_check(is_floating: bool, api_is_platform_default: bool) -> Result<
    (),
    GuiConfigError,
> {
    if is_floating {
        Err(GuiConfigError::FloatingNotSupported)
    } else if !api_is_platform_default {
        Err(GuiConfigError::UnsupportedApi)
    } else {
        Ok(())
    }
}

/// Number of audio ports in each direction.
pub fn audio_port_count(is_input: bool) -> (res: u32)
    ensures
        res == 1,
{
    1
}

/// The audio port at `index`: only index 0, the main stereo port, exists.
pub fn audio_port_info(index: u32, is_input: bool) -> (res: Option<AudioPortSpec>)
    ensures
        res is Some <==> index == 0,
        res matches Some(port) ==> port.id == 0 && port.name@ == "main"@ && port.channel_count == 2
            && port.is_main && port.is_stereo,
{
    if index == 0 {
        Some(AudioPortSpec { id: 0, name: "main", channel_count: 2, is_main: true, is_stereo: true })
    } else {
        None
    }
}

/// Number of parameters reported to the host.
pub fn param_count() -> (res: u32)
    ensures
        res == PARAM_COUNT,
{
    3
}

/// Name the host shows for the parameter at `index`.
pub open spec fn param_display_name(index: int) -> Seq<char> {
    if index == 0 {
        "Feedback"@
    } else if index == 1 {
        "Cut off"@
    } else {
        "Mix"@
    }
}

/// Default value of the parameter at `index`.
pub open spec fn param_default(index: int) -> u32 {
    if index == 0 {
        DEFAULT_FEEDBACK
    } else if index == 1 {
        DEFAULT_CUT_OFF
    } else {
        DEFAULT_MIX
    }
}

fn unit_param_info(id: u32, name: &'static str, init: u32) -> (res: ParamInfoSpec)
    ensures
        res.id == id,
        res.name == name,
        res.min_value == ZERO_BITS,
        res.max_value == ONE_BITS,
        res.default_value == init,
        res.is_automatable,
{
    ParamInfoSpec {
        id,
        name,
        min_value: ZERO_BITS,
        max_value: ONE_BITS,
        default_value: init,
        is_automatable: true,
    }
}

/// The description of the parameter at `param_index`, for the three
/// parameters; none beyond them.
pub fn param_info(param_index: u32) -> (res: Option<ParamInfoSpec>)
    ensures
        res is Some <==> param_index < PARAM_COUNT,
        res matches Some(info) ==> {
            &&& info.id == param_index
            &&& info.name@ == param_display_name(param_index as int)
            &&& info.min_value == ZERO_BITS
            &&& info.max_value == ONE_BITS
            &&& info.default_value == param_default(param_index as int)
            &&& info.is_automatable
        },
{
    if param_index == 0 {
        Some(unit_param_info(PARAM_FEEDBACK_ID, "Feedback", DEFAULT_FEEDBACK))
    } else if param_index == 1 {
        Some(unit_param_info(PARAM_CUT_OFF_ID, "Cut off", DEFAULT_CUT_OFF))
    } else if param_index == 2 {
        Some(unit_param_info(PARAM_MIX_ID, "Mix", DEFAULT_MIX))
    } else {
        None
    }
}

/// Whether `param_id` is one of the plugin's parameter identifiers.
pub fn is_valid_param(param_id: u32) -> (res: bool)
    ensures
        res == (PARAM_FEEDBACK_ID <= param_id && param_id <= PARAM_MIX_ID),
{
    param_id >= PARAM_FEEDBACK_ID && param_id <= PARAM_MIX_ID
}

/// The current value of the parameter with identifier `param_id`, read from
/// the shared side; none for an unknown identifier. The value read depends
/// on other threads.
pub fn param_value(shared: &ReverbParamsShared, param_id: u32) -> (res: Option<u32>)
    ensures
        res is Some <==> (param_id <= PARAM_MIX_ID && param_id < shared.params@.len()),
{
    if is_valid_param(param_id) {
        let index = param_id as usize;
        if index < shared.params.len() {
            Some(shared.params[index].get())
        } else {
            None
        }
    } else {
        None
    }
}

/// Whether the host's GUI configuration is one the plugin can show: an
/// embedded window of the platform's default API.
pub fn is_api_supported(api_is_platform_default: bool, is_floating: bool) -> (res: bool)
    ensures
        res == (api_is_platform_default && !is_floating),
{
    api_is_platform_default && !is_floating
}

/// The answer to the host's request to create the GUI.
pub fn check_gui_configuration(is_floating: bool, api_is_platform_default: bool) -> (res: Result<
    (),
    GuiConfigError,
>)
    ensures
        res == gui_check(is_floating, api_is_platform_default),
{
    if is_floating {
        return Err(GuiConfigError::FloatingNotSupported);
    }
    if !api_is_platform_default {
        return Err(GuiConfigError::UnsupportedApi);
    }
    Ok(())
}

/// The size of the editor window.
pub fn gui_size() -> (res: (u32, u32))
    ensures
        res == (GUI_WIDTH, GUI_HEIGHT),
{
    (GUI_WIDTH, GUI_HEIGHT)
}

/// The configurations the plugin reports as supported are exactly those it
/// accepts when asked to create its GUI.
pub proof fn lemma_supported_is_accepted(is_floating: bool, api_is_platform_default: bool)
    ensures
        (api_is_platform_default && !is_floating) <==> gui_check(
            is_floating,
            api_is_platform_default,
        ) is Ok,
{
}

/// The main thread, the local copy of the parameters and the channel table
/// agree on which identifiers name a parameter.
pub proof fn lemma_param_ids_agree(param_id: u32)
    ensures
        (PARAM_FEEDBACK_ID <= param_id && param_id <= PARAM_MIX_ID) <==> param_id < PARAM_COUNT,
{
}

} // verus!
