use logwarden::engine::plugin::{
    after_check, check_boundary, DispatchAction, DispatchError, LoadEvent, LoadProgress,
    LoadRequest, ModuleImage, ModuleLoader, Plugin, PluginError, RequiredSymbol,
};

fn nginx_image() -> ModuleImage {
    ModuleImage {
        loadable: true,
        has_get_plugin_name: true,
        has_get_log_path: true,
        has_check_log_parseable: true,
        has_parse_log_string: true,
        plugin_name: Some(String::from("Nginx Plugin")),
        log_path: Some(String::from("/var/log/nginx/access.log")),
    }
}

#[test]
fn entry_points_have_their_exact_names() {
    assert_eq!(RequiredSymbol::GetPluginName.name(), "get_plugin_name");
    assert_eq!(RequiredSymbol::GetLogPath.name(), "get_log_path");
    assert_eq!(RequiredSymbol::CheckLogParseable.name(), "check_log_parseable");
    assert_eq!(RequiredSymbol::ParseLogString.name(), "parse_log_string");
    assert_eq!(RequiredSymbol::GetPluginName.next(), Some(RequiredSymbol::GetLogPath));
    assert_eq!(RequiredSymbol::ParseLogString.next(), None);
}

#[test]
fn complete_module_loads_under_its_own_name() {
    let image = nginx_image();
    let plugin = Plugin::new(String::from("/opt/plugins/libnginx.so"), &image).unwrap();
    assert_eq!(plugin.get_plugin_name(), "Nginx Plugin");
    assert_eq!(plugin.plugin_location, "/opt/plugins/libnginx.so");
    let returned = match image.answer(LoadRequest::Call(RequiredSymbol::GetLogPath)) {
        LoadEvent::Returned(text) => text,
        other => panic!("{:?}", other),
    };
    assert_eq!(plugin.get_log_path(returned).unwrap(), "/var/log/nginx/access.log");
}

#[test]
fn module_loads_whatever_its_log_path_is() {
    let mut image = nginx_image();
    image.log_path = None;
    let plugin = Plugin::new(String::from("/opt/plugins/libnginx.so"), &image).unwrap();
    assert_eq!(plugin.get_plugin_name(), "Nginx Plugin");
    match plugin.get_log_path(None) {
        Err(PluginError::InvalidPluginError(path, at)) => {
            assert_eq!(path, "/opt/plugins/libnginx.so");
            assert_eq!(at, RequiredSymbol::GetLogPath);
        }
        other => panic!("{:?}", other),
    }
}

fn missing(symbol: RequiredSymbol) -> ModuleImage {
    let mut image = nginx_image();
    match symbol {
        RequiredSymbol::GetPluginName => image.has_get_plugin_name = false,
        RequiredSymbol::GetLogPath => image.has_get_log_path = false,
        RequiredSymbol::CheckLogParseable => image.has_check_log_parseable = false,
        RequiredSymbol::ParseLogString => image.has_parse_log_string = false,
    }
    image
}

#[test]
fn module_without_one_entry_point_fails_at_that_entry_point() {
    for symbol in [
        RequiredSymbol::GetPluginName,
        RequiredSymbol::GetLogPath,
        RequiredSymbol::CheckLogParseable,
        RequiredSymbol::ParseLogString,
    ] {
        match Plugin::new(String::from("/opt/plugins/broken.so"), &missing(symbol)) {
            Err(PluginError::InvalidPluginError(path, at)) => {
                assert_eq!(path, "/opt/plugins/broken.so");
                assert_eq!(at, symbol);
            }
            other => panic!("loaded or failed otherwise: {:?}", other),
        }
    }
}

#[test]
fn first_missing_entry_point_is_the_one_reported() {
    let mut image = missing(RequiredSymbol::GetLogPath);
    image.has_parse_log_string = false;
    match Plugin::new(String::from("x.so"), &image) {
        Err(PluginError::InvalidPluginError(_, at)) => assert_eq!(at, RequiredSymbol::GetLogPath),
        other => panic!("loaded or failed otherwise: {:?}", other),
    }
}

#[test]
fn path_that_is_no_library_is_a_load_error() {
    let mut image = nginx_image();
    image.loadable = false;
    match Plugin::new(String::from("/etc/passwd"), &image) {
        Err(PluginError::PluginLoadError(path)) => assert_eq!(path, "/etc/passwd"),
        other => panic!("loaded or failed otherwise: {:?}", other),
    }
}

#[test]
fn name_that_is_no_text_makes_the_module_invalid() {
    let mut image = nginx_image();
    image.plugin_name = None;
    match Plugin::new(String::from("x.so"), &image) {
        Err(PluginError::InvalidPluginError(_, at)) => {
            assert_eq!(at, RequiredSymbol::GetPluginName)
        }
        other => panic!("loaded or failed otherwise: {:?}", other),
    }
}

#[test]
fn loader_asks_in_order_and_calls_for_the_name_once() {
    let mut requests: Vec<LoadRequest> = Vec::new();
    let mut progress = ModuleLoader::begin(String::from("lib.so"));
    let image = nginx_image();
    let plugin = loop {
        match progress {
            LoadProgress::Next(loader, request) => {
                requests.push(request);
                progress = loader.advance(image.answer(request));
            }
            LoadProgress::Loaded(plugin) => break plugin,
            LoadProgress::Failed(e) => panic!("{}", e.message()),
        }
    };
    assert_eq!(
        requests,
        vec![
            LoadRequest::Open,
            LoadRequest::Resolve(RequiredSymbol::GetPluginName),
            LoadRequest::Resolve(RequiredSymbol::GetLogPath),
            LoadRequest::Resolve(RequiredSymbol::CheckLogParseable),
            LoadRequest::Resolve(RequiredSymbol::ParseLogString),
            LoadRequest::Call(RequiredSymbol::GetPluginName),
        ]
    );
    assert_eq!(plugin.plugin_name, "Nginx Plugin");
}

#[test]
fn event_that_answers_another_request_is_a_load_error() {
    match ModuleLoader::begin(String::from("lib.so")) {
        LoadProgress::Next(loader, LoadRequest::Open) => {
            match loader.advance(LoadEvent::Resolved(true)) {
                LoadProgress::Failed(PluginError::PluginLoadError(path)) => {
                    assert_eq!(path, "lib.so")
                }
                other => panic!("{:?}", other),
            }
        }
        other => panic!("{:?}", other),
    }
}

#[test]
fn errors_say_what_went_wrong() {
    assert_eq!(
        PluginError::PluginLoadError(String::from("/a/b.so")).message(),
        "Unable to load plugin at path /a/b.so"
    );
    assert_eq!(
        PluginError::InvalidPluginError(String::from("/a/b.so"), RequiredSymbol::ParseLogString)
            .message(),
        "Plugin located at /a/b.so has an invalid signature: parse_log_string"
    );
}

#[test]
fn text_with_a_nul_does_not_cross_to_a_module() {
    assert_eq!(check_boundary("GET / HTTP/1.1"), Ok(()));
    assert_eq!(check_boundary(""), Ok(()));
    assert_eq!(check_boundary("GET /\0 HTTP/1.1"), Err(DispatchError::InteriorNul));
}

#[test]
fn chunk_is_parsed_only_where_the_module_can() {
    assert_eq!(after_check(true), DispatchAction::Parse);
    assert_eq!(after_check(false), DispatchAction::Drop);
}
