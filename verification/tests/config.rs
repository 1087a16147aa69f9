use rusty_lights::config::{AudioConfig, HttpConfig, OutputConfig};
use rusty_lights::effects::{scroll_right, spectrum_band_mapping, EffectKind, Gradient, GradientPreset};
use rusty_lights::Rgb;

#[test]
fn section_defaults() {
    let audio = AudioConfig::default();
    assert_eq!(audio.backend, "pipewire");
    assert_eq!(audio.device, "auto");
    assert_eq!(audio.sample_rate, 48000);
    assert_eq!(audio.chunk_size, 512);
    assert!(audio.fifo_path.is_none());

    let output = OutputConfig::default();
    assert_eq!(output.protocol, "e131");
    assert_eq!(output.target, "239.255.0.1");
    assert_eq!(output.universe, 1);
    assert_eq!(output.fps, 60);
    assert_eq!(output.idle_timeout, 0);
    assert!(output.segments.is_empty());
    assert_eq!(output.leds.led_count(), 300);

    let http = HttpConfig::default();
    assert!(!http.enabled);
    assert_eq!(http.port, 8080);
}

#[test]
fn rgb_constructors() {
    assert_eq!(Rgb::new(1, 2, 3).as_bytes(), [1, 2, 3]);
    assert_eq!(Rgb::black().as_bytes(), [0, 0, 0]);
    assert_eq!(Rgb::white().as_bytes(), [255, 255, 255]);
}

#[test]
fn spectrum_mapping_plain_and_mirrored() {
    assert_eq!(spectrum_band_mapping(6, 3, false), vec![0, 0, 1, 1, 2, 2]);
    assert_eq!(spectrum_band_mapping(6, 3, true), vec![0, 1, 2, 2, 1, 0]);
    assert_eq!(spectrum_band_mapping(4, 24, false), vec![0, 6, 12, 18]);
    assert_eq!(spectrum_band_mapping(60, 24, false)[59], 23);
}

#[test]
fn scroll_moves_colours_towards_end() {
    let mut leds = [Rgb::new(1, 0, 0), Rgb::new(2, 0, 0), Rgb::new(3, 0, 0), Rgb::new(4, 0, 0)];
    scroll_right(&mut leds, 1);
    assert_eq!(leds, [Rgb::new(1, 0, 0), Rgb::new(1, 0, 0), Rgb::new(2, 0, 0), Rgb::new(3, 0, 0)]);
    scroll_right(&mut leds, 10);
    assert_eq!(leds, [Rgb::new(1, 0, 0); 4]);
    let mut none: [Rgb; 0] = [];
    scroll_right(&mut none, 3);
}

#[test]
fn gradient_index_wraps_around() {
    let table = vec![Rgb::new(1, 0, 0), Rgb::new(2, 0, 0), Rgb::new(3, 0, 0)];
    let g = Gradient::from_table(table);
    assert_eq!(g.len(), 3);
    assert_eq!(g.get_index(0), Rgb::new(1, 0, 0));
    assert_eq!(g.get_index(2), Rgb::new(3, 0, 0));
    assert_eq!(g.get_index(4), Rgb::new(2, 0, 0));
}

#[test]
fn gradient_clamped_lookup_holds_last() {
    let table = vec![Rgb::new(0, 1, 0), Rgb::new(0, 2, 0)];
    let g = Gradient::from_table(table);
    assert_eq!(g.get_clamped(0), Rgb::new(0, 1, 0));
    assert_eq!(g.get_clamped(1), Rgb::new(0, 2, 0));
    assert_eq!(g.get_clamped(100), Rgb::new(0, 2, 0));
}

#[test]
fn gradient_presets_by_name() {
    let names = GradientPreset::list_names();
    assert_eq!(names, vec!["rainbow", "fire", "ocean", "forest", "sunset", "party", "lava"]);
    for (name, preset) in names.iter().zip(GradientPreset::all()) {
        assert_eq!(GradientPreset::from_name(name), Some(preset));
        assert_eq!(preset.name(), *name);
    }
    assert_eq!(GradientPreset::from_name("Fire"), None);
    assert_eq!(GradientPreset::from_name("forests"), None);
    assert_eq!(GradientPreset::from_name(""), None);
}

#[test]
fn spectrum_mapping_of_an_empty_strip_is_empty() {
    assert!(spectrum_band_mapping(0, 0, false).is_empty());
    assert!(spectrum_band_mapping(0, 24, true).is_empty());
}

#[test]
fn effects_by_name() {
    let names = EffectKind::list_names();
    assert_eq!(
        names,
        vec!["energy", "spectrum", "scroll", "reactive", "pulse", "vumeter", "chromafreq"]
    );
    for (name, kind) in names.iter().zip(EffectKind::all()) {
        assert_eq!(EffectKind::from_name(name), Some(kind));
        assert_eq!(kind.name(), *name);
    }
    assert_eq!(EffectKind::from_name("Energy"), None);
    assert_eq!(EffectKind::from_name("nonexistent"), None);
}
