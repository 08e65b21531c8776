use linux_platform::audio::{
    get_default_pa_source, get_pa_monitor, get_pa_source_name, get_pa_sources, Device,
    PA_SAMPLE_RATE,
};

fn device(name: Option<&str>, description: Option<&str>) -> Device {
    Device { name: name.map(str::to_owned), description: description.map(str::to_owned) }
}

fn source(name: &str, description: &str) -> (String, String) {
    (name.to_owned(), description.to_owned())
}

#[test]
fn sources_in_order() {
    let devices = vec![device(Some("mic"), Some("Microphone")), device(None, None)];
    assert_eq!(get_pa_sources(Some(devices)), vec![source("mic", "Microphone"), source("", "")]);
    assert_eq!(get_pa_sources(Some(vec![])), vec![]);
    assert_eq!(get_pa_sources(None), vec![]);
}

#[test]
fn default_source() {
    assert_eq!(get_default_pa_source(Some(device(Some("a"), None))), Some(source("a", "")));
    assert_eq!(get_default_pa_source(None), None);
}

#[test]
fn first_monitor_is_chosen() {
    let sources = vec![
        source("mic", "monitor"),
        source("out.monitor", "first"),
        source("monitor2", "second"),
    ];
    assert_eq!(get_pa_monitor(&sources), "out.monitor");
    assert_eq!(get_pa_monitor(&vec![source("mic", "monitor")]), "");
    assert_eq!(get_pa_monitor(&vec![]), "");
}

#[test]
fn first_source_of_a_description_is_chosen() {
    let sources = vec![source("a", "x"), source("b", "y"), source("c", "y")];
    assert_eq!(get_pa_source_name("y", &sources), "b");
    assert_eq!(get_pa_source_name("z", &sources), "");
    assert_eq!(get_pa_source_name("", &sources), "");
}

#[test]
fn sample_rate() {
    assert_eq!(PA_SAMPLE_RATE, 48000);
}
