use reverb_csd::plugin::audio::csd::compile_csd_args;
use reverb_csd::plugin::audio::csd::init_options;
use reverb_csd::plugin::audio::csd::ChannelName;
use reverb_csd::plugin::main_thread::audio_port_count;
use reverb_csd::plugin::main_thread::audio_port_info;
use reverb_csd::plugin::main_thread::check_gui_configuration;
use reverb_csd::plugin::main_thread::gui_size;
use reverb_csd::plugin::main_thread::is_api_supported;
use reverb_csd::plugin::main_thread::is_valid_param;
use reverb_csd::plugin::main_thread::param_count;
use reverb_csd::plugin::main_thread::param_info;
use reverb_csd::plugin::main_thread::param_value;
use reverb_csd::plugin::main_thread::GuiConfigError;
use reverb_csd::plugin::params::param_id_to_name;
use reverb_csd::plugin::params::ReverbParamsLocal;
use reverb_csd::plugin::params::ReverbParamsShared;
use reverb_csd::util::atomic::AtomicF32;
use std::sync::atomic::Ordering;

#[test]
fn init_options_for_sample_rates() {
    assert_eq!(init_options(44100), "-n -d -+rtmidi=NULL -M0 -sr 44100");
    assert_eq!(init_options(48000), "-n -d -+rtmidi=NULL -M0 -sr 48000");
    assert_eq!(init_options(0), "-n -d -+rtmidi=NULL -M0 -sr 0");
    assert_eq!(init_options(7), "-n -d -+rtmidi=NULL -M0 -sr 7");
    assert_eq!(init_options(10), "-n -d -+rtmidi=NULL -M0 -sr 10");
    assert_eq!(
        init_options(usize::MAX),
        format!("-n -d -+rtmidi=NULL -M0 -sr {}", usize::MAX)
    );
}

#[test]
fn compile_arguments() {
    assert_eq!(compile_csd_args(true, true), (1, 1));
    assert_eq!(compile_csd_args(true, false), (1, 0));
    assert_eq!(compile_csd_args(false, true), (0, 1));
    assert_eq!(compile_csd_args(false, false), (0, 0));
}

#[test]
fn channel_name_from_any_text() {
    let name = ChannelName::new("réverb");
    let mut expected = "réverb".as_bytes().to_vec();
    expected.push(0);
    assert_eq!(name.as_bytes_with_nul(), expected.as_slice());
    assert_eq!(ChannelName::new("").as_bytes_with_nul(), b"\0");
}

#[test]
fn audio_ports() {
    assert_eq!(audio_port_count(true), 1);
    assert_eq!(audio_port_count(false), 1);
    let port = audio_port_info(0, true).unwrap();
    assert_eq!(port.id, 0);
    assert_eq!(port.name, "main");
    assert_eq!(port.channel_count, 2);
    assert!(port.is_main && port.is_stereo);
    assert!(audio_port_info(1, false).is_none());
}

#[test]
fn parameter_descriptions() {
    assert_eq!(param_count(), 3);
    let names = ["Feedback", "Cut off", "Mix"];
    let defaults = [0.6f32, 1.0, 1.0];
    for i in 0..3u32 {
        let info = param_info(i).unwrap();
        assert_eq!(info.id, i);
        assert_eq!(info.name, names[i as usize]);
        assert_eq!(info.min_value, 0.0f32.to_bits());
        assert_eq!(info.max_value, 1.0f32.to_bits());
        assert_eq!(info.default_value, defaults[i as usize].to_bits());
        assert!(info.is_automatable);
    }
    assert!(param_info(3).is_none());
}

#[test]
fn parameter_identifiers() {
    assert!(is_valid_param(0));
    assert!(is_valid_param(1));
    assert!(is_valid_param(2));
    assert!(!is_valid_param(3));
    assert!(!is_valid_param(u32::MAX));
}

#[test]
fn parameter_values_by_identifier() {
    let shared = ReverbParamsShared::default();
    assert_eq!(param_value(&shared, 0), Some(0.6f32.to_bits()));
    assert_eq!(param_value(&shared, 2), Some(1.0f32.to_bits()));
    assert_eq!(param_value(&shared, 3), None);
    let empty = ReverbParamsShared { params: Vec::new() };
    assert_eq!(param_value(&empty, 0), None);
}

#[test]
fn gui_configurations() {
    assert_eq!(check_gui_configuration(false, true), Ok(()));
    assert_eq!(check_gui_configuration(true, true), Err(GuiConfigError::FloatingNotSupported));
    assert_eq!(check_gui_configuration(true, false), Err(GuiConfigError::FloatingNotSupported));
    assert_eq!(check_gui_configuration(false, false), Err(GuiConfigError::UnsupportedApi));
    assert!(is_api_supported(true, false));
    assert!(!is_api_supported(true, true));
    assert!(!is_api_supported(false, false));
    for floating in [false, true] {
        for default_api in [false, true] {
            assert_eq!(
                is_api_supported(default_api, floating),
                check_gui_configuration(floating, default_api).is_ok()
            );
        }
    }
    assert_eq!(gui_size(), (400, 200));
}

#[test]
fn gui_error_messages() {
    assert_eq!(
        GuiConfigError::FloatingNotSupported.message(),
        "Invalid GUI configuration: this plugin does not support floating mode"
    );
    assert_eq!(
        GuiConfigError::UnsupportedApi.message(),
        "Invalid GUI configuration: unsupported API type"
    );
}

#[test]
fn atomic_cell_store_load_swap() {
    let cell = AtomicF32::new(0.5f32.to_bits());
    assert_eq!(cell.load(Ordering::Relaxed), 0.5f32.to_bits());
    cell.store(0.75f32.to_bits(), Ordering::SeqCst);
    assert_eq!(cell.load(Ordering::Acquire), 0.75f32.to_bits());
    assert_eq!(cell.swap(1.0f32.to_bits()), 0.75f32.to_bits());
    assert_eq!(f32::from_bits(cell.load(Ordering::Relaxed)), 1.0);
}

#[test]
fn init_options_name_the_sample_rate() {
    for rate in [1usize, 9, 22050, 44100, 96000, 192000, 1_000_000] {
        let text = init_options(rate);
        let digits = text.strip_prefix("-n -d -+rtmidi=NULL -M0 -sr ").unwrap();
        assert!(!digits.starts_with('0'));
        assert_eq!(digits.parse::<usize>().unwrap(), rate);
    }
}

#[test]
fn parameter_identifiers_agree() {
    let local = ReverbParamsLocal { params: [0, 0, 0] };
    for id in 0..6u32 {
        let valid = is_valid_param(id);
        assert_eq!(local.is_valid_param(id), valid);
        assert_eq!(param_id_to_name(id).is_some(), valid);
        assert_eq!(local.get_by_id(id).is_some(), valid);
        assert_eq!(param_info(id).is_some(), valid);
    }
}
