use jwst_cosmos::app::{
    App, AppAction, AppScreen, Connection, RemoteService, TunnelStatus, TunnelToggle,
};
use jwst_cosmos::screens::browser::{BrowserAction, BrowserScreen, ImageSource};
use jwst_cosmos::screens::generator::{
    cycle_index, FormFocus, GenerationMode, GeneratorAction, GeneratorScreen,
};
use jwst_cosmos::screens::models::{LoadedModels, ModelTab, ModelsAction, ModelsScreen};
use jwst_cosmos::screens::{step_back, step_on, Key, KeyPress, CONTROL, SHIFT};
use jwst_cosmos::services::comfyui::Fraction;
use jwst_cosmos::services::jwst_esa::EsaImage;
use jwst_cosmos::services::ollama::OllamaModel;
use jwst_cosmos::utils::image_utils::SizePreset;

fn press(key: Key) -> KeyPress {
    KeyPress { key, modifiers: 0 }
}

fn with(key: Key, modifiers: u8) -> KeyPress {
    KeyPress { key, modifiers }
}

fn esa_image(id: &str) -> EsaImage {
    EsaImage { id: id.to_string(), title: id.to_string(), pub_date: None, enclosure_url: None }
}

fn model(name: &str) -> OllamaModel {
    OllamaModel { name: name.to_string(), size: 0, digest: String::new(), modified_at: None, details: None }
}

#[test]
fn steps_go_round() {
    assert_eq!(step_back(None, 5), 0);
    assert_eq!(step_back(Some(0), 5), 4);
    assert_eq!(step_back(Some(3), 5), 2);
    assert_eq!(step_back(Some(0), 0), 0);
    assert_eq!(step_back(Some(9), 5), 8);
    assert_eq!(step_on(None, 5), 0);
    assert_eq!(step_on(Some(4), 5), 0);
    assert_eq!(step_on(Some(3), 5), 4);
    assert_eq!(step_on(Some(0), 0), 0);
    assert_eq!(step_on(Some(0), 1), 0);
    assert_eq!(step_on(Some(usize::MAX), 5), 0);
    for count in 1..6usize {
        for i in 0..count {
            assert_eq!(step_back(Some(step_on(Some(i), count)), count), i);
            assert_eq!(step_on(Some(step_back(Some(i), count)), count), i);
        }
    }
}

#[test]
fn tabs_go_round() {
    assert_eq!(AppScreen::Browser.next(), AppScreen::Generator);
    assert_eq!(AppScreen::Generator.next(), AppScreen::Models);
    assert_eq!(AppScreen::Models.next(), AppScreen::Browser);
    assert_eq!(AppScreen::Browser.previous(), AppScreen::Models);
    assert_eq!(AppScreen::Generator.previous(), AppScreen::Browser);
    assert_eq!(AppScreen::Models.previous(), AppScreen::Generator);
    for screen in [AppScreen::Browser, AppScreen::Generator, AppScreen::Models] {
        assert_eq!(screen.next().previous(), screen);
        assert_eq!(screen.previous().next(), screen);
        assert_eq!(screen.next().next().next(), screen);
    }
    assert_eq!(AppScreen::Browser.index(), 0);
    assert_eq!(AppScreen::Generator.index(), 1);
    assert_eq!(AppScreen::Models.index(), 2);
    assert_eq!(AppScreen::Browser.title(), "Browser");
    assert_eq!(AppScreen::Generator.title(), "Generator");
    assert_eq!(AppScreen::Models.title(), "Models");
}

#[test]
fn tunnel_status_sums_up() {
    assert_eq!(TunnelStatus::default(), TunnelStatus { ollama: false, comfyui: false });
    assert_eq!(TunnelStatus { ollama: true, comfyui: true }.connection(), Connection::Connected);
    assert_eq!(TunnelStatus { ollama: true, comfyui: false }.connection(), Connection::Partial);
    assert_eq!(TunnelStatus { ollama: false, comfyui: true }.connection(), Connection::Partial);
    assert_eq!(TunnelStatus::default().connection(), Connection::Disconnected);
    assert!(TunnelStatus { ollama: false, comfyui: true }.any());
    assert!(!TunnelStatus::default().any());
}

#[test]
fn app_keys_quit_only_on_the_browser() {
    let mut app = App::new();
    assert_eq!(app.status_message, "Ready");
    assert_eq!(app.handle_key(press(Key::Char('x'))), AppAction::Delegate(AppScreen::Browser));
    assert_eq!(app.handle_key(with(Key::Char('q'), CONTROL)), AppAction::Quit);
    assert!(app.should_quit);
    let mut app = App::new();
    assert_eq!(app.handle_key(press(Key::Char('q'))), AppAction::Quit);
    let mut app = App::new();
    assert_eq!(app.handle_key(with(Key::Char('c'), CONTROL)), AppAction::Quit);
    let mut app = App::new();
    assert_eq!(app.handle_key(press(Key::Char('c'))), AppAction::Delegate(AppScreen::Browser));
    assert_eq!(app.handle_key(with(Key::Char('c'), CONTROL | SHIFT)), AppAction::Delegate(AppScreen::Browser));
    assert!(!app.should_quit);
    app.current_screen = AppScreen::Generator;
    assert_eq!(app.handle_key(press(Key::Char('q'))), AppAction::Delegate(AppScreen::Generator));
    assert_eq!(app.handle_key(with(Key::Char('c'), CONTROL)), AppAction::Delegate(AppScreen::Generator));
    assert!(!app.should_quit);
}

#[test]
fn app_keys_switch_screens_and_toggle_tunnels() {
    let mut app = App::new();
    assert_eq!(app.handle_key(press(Key::Tab)), AppAction::SyncReference);
    assert_eq!(app.current_screen, AppScreen::Generator);
    assert_eq!(app.handle_key(with(Key::Tab, SHIFT)), AppAction::Switched);
    assert_eq!(app.current_screen, AppScreen::Models);
    assert_eq!(app.handle_key(with(Key::BackTab, SHIFT)), AppAction::SyncReference);
    assert_eq!(app.current_screen, AppScreen::Generator);
    assert_eq!(app.handle_key(press(Key::BackTab)), AppAction::Delegate(AppScreen::Generator));
    assert_eq!(app.handle_key(with(Key::BackTab, SHIFT)), AppAction::Switched);
    assert_eq!(app.current_screen, AppScreen::Browser);
    assert_eq!(app.handle_key(press(Key::Char('t'))), AppAction::ToggleTunnels);
    assert_eq!(app.handle_key(with(Key::Char('t'), CONTROL)), AppAction::ToggleTunnels);
    assert_eq!(app.handle_key(press(Key::Enter)), AppAction::Delegate(AppScreen::Browser));
}

#[test]
fn tunnels_are_toggled() {
    let mut app = App::new();
    assert_eq!(app.toggle_tunnels(), TunnelToggle::Open);
    assert_eq!(app.status_message, "Connecting to remote...");
    assert!(app.tunnel_opened(RemoteService::Ollama, None));
    assert_eq!(app.tunnel_status, TunnelStatus { ollama: true, comfyui: false });
    assert_eq!(app.status_message, "Connecting to remote...");
    assert!(!app.tunnel_opened(RemoteService::ComfyUi, Some("Tunnel for comfyui not ready")));
    assert_eq!(app.status_message, "ComfyUI tunnel failed: Tunnel for comfyui not ready");
    assert_eq!(app.tunnel_status, TunnelStatus { ollama: true, comfyui: false });
    assert_eq!(app.toggle_tunnels(), TunnelToggle::Close);
    assert_eq!(app.status_message, "Tunnels closed");
    assert_eq!(app.tunnel_status, TunnelStatus::default());
    assert_eq!(app.toggle_tunnels(), TunnelToggle::Open);
    assert!(!app.tunnel_opened(RemoteService::Ollama, Some("no ssh")));
    assert_eq!(app.status_message, "Ollama tunnel failed: no ssh");
    assert!(app.tunnel_opened(RemoteService::Ollama, None));
    assert!(app.tunnel_opened(RemoteService::ComfyUi, None));
    assert_eq!(app.status_message, "Connected to remote services");
    assert_eq!(app.tunnel_status.connection(), Connection::Connected);
    app.update_tunnel_status(false, true);
    assert_eq!(app.tunnel_status, TunnelStatus { ollama: false, comfyui: true });
}

#[test]
fn first_load_is_reported() {
    let mut app = App::new();
    app.load_initial_data();
    assert_eq!(app.status_message, "Loading images...");
    app.initial_data_loaded(Some("offline"));
    assert_eq!(app.status_message, "Failed to load images: offline");
    app.initial_data_loaded(None);
    assert_eq!(app.status_message, "Ready");
}

#[test]
fn browser_moves_its_selection() {
    let mut browser = BrowserScreen::new();
    assert_eq!(browser.selected, Some(0));
    assert_eq!(browser.selected_image(), None);
    browser.next();
    assert_eq!(browser.selected, Some(0));
    browser.previous();
    assert_eq!(browser.selected, Some(0));
    assert_eq!(browser.load_images(), ImageSource::Esa);
    assert!(browser.loading);
    browser.images_loaded(Some(Ok(vec![esa_image("a"), esa_image("b"), esa_image("c")])));
    assert!(!browser.loading);
    assert_eq!(browser.selected, Some(0));
    assert_eq!(browser.selected_image(), Some(&esa_image("a")));
    assert_eq!(browser.handle_key(press(Key::Up)), BrowserAction::Nothing);
    assert_eq!(browser.selected, Some(2));
    assert_eq!(browser.handle_key(press(Key::Down)), BrowserAction::Nothing);
    assert_eq!(browser.selected, Some(0));
    browser.handle_key(press(Key::Char('j')));
    browser.handle_key(press(Key::Char('j')));
    assert_eq!(browser.selected_image(), Some(&esa_image("c")));
    browser.handle_key(press(Key::Char('k')));
    assert_eq!(browser.selected, Some(1));
    browser.selected = None;
    browser.next();
    assert_eq!(browser.selected, Some(0));
    browser.selected = None;
    browser.previous();
    assert_eq!(browser.selected, Some(0));
}

#[test]
fn browser_keys_ask_for_work() {
    let mut browser = BrowserScreen::new();
    assert_eq!(browser.handle_key(press(Key::Enter)), BrowserAction::Download);
    assert_eq!(browser.handle_key(press(Key::Char('w'))), BrowserAction::ApplyWallpaper);
    assert_eq!(browser.handle_key(press(Key::Char('r'))), BrowserAction::Load { force_refresh: true });
    assert_eq!(browser.source, ImageSource::Esa);
    assert_eq!(browser.handle_key(press(Key::Char('s'))), BrowserAction::Load { force_refresh: false });
    assert_eq!(browser.source, ImageSource::JwstApi);
    assert_eq!(browser.load_images(), ImageSource::JwstApi);
    browser.images_loaded(None);
    assert!(!browser.loading);
    browser.handle_key(press(Key::Char('s')));
    assert_eq!(browser.source, ImageSource::Esa);
    assert!(!browser.show_detail);
    assert_eq!(browser.handle_key(press(Key::Char(' '))), BrowserAction::Nothing);
    assert!(browser.show_detail);
    assert_eq!(browser.handle_key(press(Key::Esc)), BrowserAction::Nothing);
    assert_eq!(browser.handle_key(press(Key::Char('x'))), BrowserAction::Nothing);
    assert_eq!(ImageSource::Esa.name(), "ESA/Webb Gallery");
    assert_eq!(ImageSource::JwstApi.name(), "JWST API");
    assert_eq!(ImageSource::Esa.toggled(), ImageSource::JwstApi);
}

#[test]
fn browser_shows_failures() {
    let mut browser = BrowserScreen::new();
    browser.load_images();
    browser.images_loaded(Some(Err("timeout".to_string())));
    assert_eq!(browser.error, Some("Failed to load images: timeout".to_string()));
    assert_eq!(browser.download_selected(), None);
    assert!(!browser.loading);
    browser.load_images();
    assert_eq!(browser.error, None);
    browser.images_loaded(Some(Ok(vec![esa_image("a")])));
    assert_eq!(browser.download_selected(), Some(esa_image("a")));
    assert!(browser.loading);
    browser.download_finished(Err("404".to_string()));
    assert!(!browser.loading);
    assert_eq!(browser.error, Some("Download failed: 404".to_string()));
    assert_eq!(browser.apply_as_wallpaper(None), None);
    assert_eq!(
        browser.error,
        Some("No image downloaded yet - press Enter to download first".to_string())
    );
    browser.download_selected();
    browser.download_finished(Ok("/p/webb-a.jpg".to_string()));
    assert_eq!(browser.last_downloaded, Some("/p/webb-a.jpg".to_string()));
    assert_eq!(browser.get_reference_image_path(None), Some("/p/webb-a.jpg".to_string()));
    assert_eq!(
        browser.get_reference_image_path(Some("/p/webb-a-ultrawide.jpg".to_string())),
        Some("/p/webb-a-ultrawide.jpg".to_string())
    );
    assert_eq!(browser.apply_as_wallpaper(None), Some("/p/webb-a.jpg".to_string()));
    browser.wallpaper_applied(Some("Refresh script not found"));
    assert_eq!(browser.error, Some("Failed to apply wallpaper: Refresh script not found".to_string()));
    browser.wallpaper_applied(None);
    assert_eq!(browser.error, None);
    browser.images_loaded(Some(Ok(Vec::new())));
    assert_eq!(browser.selected, Some(0));
    assert_eq!(browser.selected_image(), None);
}

#[test]
fn modes_have_names() {
    assert_eq!(GenerationMode::Img2Img.name(), "img2img");
    assert_eq!(GenerationMode::ControlNetDepth.name(), "ControlNet Depth");
    assert_eq!(GenerationMode::ControlNetCanny.name(), "ControlNet Canny");
    assert_eq!(
        GenerationMode::all(),
        vec![GenerationMode::Img2Img, GenerationMode::ControlNetDepth, GenerationMode::ControlNetCanny]
    );
    assert_eq!(GenerationMode::Img2Img.workflow_name(), "img2img_sdxl.json");
    assert_eq!(GenerationMode::ControlNetDepth.workflow_name(), "controlnet_depth.json");
    assert_eq!(GenerationMode::ControlNetCanny.workflow_name(), "controlnet_canny.json");
}

#[test]
fn cycling_goes_round() {
    assert_eq!(cycle_index(0, 3, true), 1);
    assert_eq!(cycle_index(2, 3, true), 0);
    assert_eq!(cycle_index(0, 3, false), 2);
    assert_eq!(cycle_index(2, 3, false), 1);
    assert_eq!(cycle_index(0, 1, true), 0);
    assert_eq!(cycle_index(0, 1, false), 0);
    assert_eq!(cycle_index(7, 3, true), (7 + 1) % 3);
    assert_eq!(cycle_index(7, 3, false), (7 + 3 - 1) % 3);
    assert_eq!(cycle_index(usize::MAX, 7, true), ((usize::MAX % 7) + 1) % 7);
    assert_eq!(cycle_index(usize::MAX, 7, false), ((usize::MAX % 7) + 6) % 7);
}

#[test]
fn form_focus_goes_round() {
    let mut form = GeneratorScreen::new();
    let mut seen = vec![form.focus];
    for _ in 0..5 {
        form.next_field();
        seen.push(form.focus);
    }
    assert_eq!(
        seen,
        [FormFocus::Mode, FormFocus::Size, FormFocus::Model, FormFocus::Prompt, FormFocus::Generate, FormFocus::Mode]
    );
    for expected in [FormFocus::Generate, FormFocus::Prompt, FormFocus::Model, FormFocus::Size, FormFocus::Mode] {
        form.prev_field();
        assert_eq!(form.focus, expected);
    }
    assert_eq!(form.handle_key(press(Key::Tab)), GeneratorAction::Nothing);
    assert_eq!(form.focus, FormFocus::Size);
    form.handle_key(press(Key::Down));
    assert_eq!(form.focus, FormFocus::Model);
    form.handle_key(press(Key::Up));
    form.handle_key(press(Key::BackTab));
    assert_eq!(form.focus, FormFocus::Mode);
    form.handle_key(press(Key::Enter));
    assert_eq!(form.focus, FormFocus::Size);
}

#[test]
fn form_cycles_its_choices() {
    let mut form = GeneratorScreen::new();
    assert_eq!((form.mode, form.size, form.model.as_str()), (GenerationMode::Img2Img, SizePreset::Ultrawide, "sdxl"));
    form.handle_key(press(Key::Left));
    assert_eq!((form.mode, form.mode_idx), (GenerationMode::ControlNetCanny, 2));
    form.handle_key(press(Key::Right));
    form.handle_key(press(Key::Right));
    assert_eq!((form.mode, form.mode_idx), (GenerationMode::ControlNetDepth, 1));
    form.next_field();
    form.cycle_selection(true);
    assert_eq!((form.size, form.size_idx), (SizePreset::Hd, 0));
    form.cycle_selection(false);
    form.cycle_selection(false);
    assert_eq!((form.size, form.size_idx), (SizePreset::Uhd4k, 3));
    form.next_field();
    form.cycle_selection(true);
    assert_eq!((form.model.as_str(), form.model_idx), ("flux", 1));
    form.cycle_selection(true);
    assert_eq!((form.model.as_str(), form.model_idx), ("sdxl", 0));
    form.load_models(Some(vec!["a".to_string(), "b".to_string(), "c".to_string()]));
    assert_eq!((form.model.as_str(), form.model_idx), ("a", 0));
    form.cycle_selection(false);
    assert_eq!((form.model.as_str(), form.model_idx), ("c", 2));
    form.load_models(Some(Vec::new()));
    form.load_models(None);
    assert_eq!(form.available_models.len(), 3);
    assert_eq!(form.model, "c");
    form.next_field();
    let before = form.clone();
    form.cycle_selection(true);
    assert_eq!(form, before);
    form.available_models.clear();
    form.focus = FormFocus::Model;
    let before = form.clone();
    form.cycle_selection(true);
    assert_eq!(form, before);
}

#[test]
fn prompt_is_typed_only_in_its_field() {
    let mut form = GeneratorScreen::new();
    form.handle_key(press(Key::Char('x')));
    form.handle_key(press(Key::Backspace));
    assert_eq!(form.prompt, "");
    form.focus = FormFocus::Prompt;
    for c in "nébula".chars() {
        assert_eq!(form.handle_key(press(Key::Char(c))), GeneratorAction::Nothing);
    }
    assert_eq!(form.prompt, "nébula");
    form.handle_key(press(Key::Backspace));
    form.handle_key(press(Key::Backspace));
    assert_eq!(form.prompt, "nébu");
    for _ in 0..10 {
        form.handle_key(press(Key::Backspace));
    }
    assert_eq!(form.prompt, "");
}

#[test]
fn generation_needs_a_reference_image() {
    let mut form = GeneratorScreen::new();
    form.focus = FormFocus::Generate;
    assert_eq!(form.handle_key(press(Key::Enter)), GeneratorAction::Nothing);
    assert_eq!(form.error, Some("No reference image selected".to_string()));
    assert_eq!(form.progress, None);
    form.set_reference_image("/p/webb-a.jpg".to_string());
    form.prompt = "in the style of a woodcut".to_string();
    let order = match form.handle_key(press(Key::Enter)) {
        GeneratorAction::Generate(order) => order,
        other => panic!("{other:?}"),
    };
    assert_eq!(order.mode, GenerationMode::Img2Img);
    assert_eq!(
        order.params,
        vec![
            ("width".to_string(), "5120".to_string()),
            ("height".to_string(), "2160".to_string()),
            ("prompt".to_string(), "in the style of a woodcut".to_string()),
            ("model".to_string(), "sdxl".to_string()),
            ("image".to_string(), "/p/webb-a.jpg".to_string()),
        ]
    );
    assert_eq!(form.error, None);
    let progress = form.progress.clone().unwrap();
    assert_eq!(progress.status, "Starting...");
    assert_eq!(progress.progress, Fraction { num: 0, den: 1 });
    assert!(!form.generating);
    assert_eq!(form.start_generation(), Some(order));
}

#[test]
fn a_running_generation_only_hears_escape() {
    let mut form = GeneratorScreen::new();
    form.generating = true;
    form.focus = FormFocus::Prompt;
    let before = form.clone();
    for key in [Key::Tab, Key::Enter, Key::Char('x'), Key::Left, Key::Backspace] {
        assert_eq!(form.handle_key(press(key)), GeneratorAction::Nothing);
        assert_eq!(form, before);
    }
    assert_eq!(form.handle_key(press(Key::Esc)), GeneratorAction::Interrupt);
    assert!(!form.generating);
    assert_eq!(form.handle_key(press(Key::Esc)), GeneratorAction::Nothing);
}

#[test]
fn models_are_loaded_per_tab() {
    let mut screen = ModelsScreen::new();
    assert_eq!(screen.model_count(), 0);
    assert_eq!(screen.status_line(), "0 models (0 vision)");
    assert_eq!(screen.load_models(), ModelTab::Ollama);
    assert!(screen.loading);
    screen.models_loaded(LoadedModels::Ollama(Ok(vec![model("llava"), model("phi3"), model("Moondream")])));
    assert!(!screen.loading);
    assert_eq!(screen.model_count(), 3);
    assert_eq!(screen.status_line(), "3 models (2 vision)");
    screen.switch_tab();
    assert_eq!(screen.current_tab, ModelTab::ComfyUI);
    assert_eq!(screen.model_count(), 0);
    assert_eq!(screen.load_models(), ModelTab::ComfyUI);
    screen.models_loaded(LoadedModels::ComfyUI(Ok(vec!["sdxl.safetensors".to_string()])));
    assert_eq!(screen.status_line(), "1 checkpoints");
    screen.models_loaded(LoadedModels::ComfyUI(Err("no tunnel".to_string())));
    assert_eq!(screen.error, Some("Failed to load ComfyUI models: no tunnel".to_string()));
    screen.models_loaded(LoadedModels::Ollama(Err("no tunnel".to_string())));
    assert_eq!(screen.error, Some("Failed to load Ollama models: no tunnel".to_string()));
    assert_eq!(screen.ollama_models.len(), 3);
}

#[test]
fn model_selection_goes_round() {
    let mut screen = ModelsScreen::new();
    screen.selected = Some(5);
    screen.previous();
    screen.next();
    assert_eq!(screen.selected, Some(5));
    screen.models_loaded(LoadedModels::Ollama(Ok(vec![model("a"), model("b"), model("c")])));
    assert_eq!(screen.selected, Some(0));
    assert_eq!(screen.handle_key(press(Key::Up)), ModelsAction::Nothing);
    assert_eq!(screen.selected, Some(2));
    screen.handle_key(press(Key::Char('j')));
    assert_eq!(screen.selected, Some(0));
    screen.handle_key(press(Key::Down));
    screen.handle_key(press(Key::Char('k')));
    assert_eq!(screen.selected, Some(0));
    screen.handle_key(press(Key::Down));
    assert_eq!(screen.handle_key(press(Key::Tab)), ModelsAction::Nothing);
    assert_eq!((screen.current_tab, screen.selected), (ModelTab::ComfyUI, Some(0)));
    screen.handle_key(press(Key::Tab));
    assert_eq!(screen.current_tab, ModelTab::Ollama);
}

#[test]
fn models_are_pulled_by_name() {
    let mut screen = ModelsScreen::new();
    assert_eq!(screen.handle_key(press(Key::Char('p'))), ModelsAction::Nothing);
    assert!(screen.input_mode);
    assert_eq!(screen.handle_key(press(Key::Enter)), ModelsAction::Nothing);
    assert!(screen.input_mode);
    for c in "llavaX".chars() {
        screen.handle_key(press(Key::Char(c)));
    }
    screen.handle_key(press(Key::Backspace));
    assert_eq!(screen.input_buffer, "llava");
    assert_eq!(screen.handle_key(press(Key::Tab)), ModelsAction::Nothing);
    assert_eq!(screen.current_tab, ModelTab::Ollama);
    assert_eq!(screen.handle_key(press(Key::Enter)), ModelsAction::Pull("llava".to_string()));
    assert!(!screen.input_mode);
    assert!(screen.pulling);
    assert_eq!(screen.pull_model, "llava");
    assert_eq!(screen.input_buffer, "");
    screen.pull_started(None);
    assert_eq!(screen.pull_progress.as_ref().unwrap().status, "Starting download...");
    assert_eq!(screen.handle_key(press(Key::Char('p'))), ModelsAction::Nothing);
    assert!(!screen.input_mode);
    screen.pull_started(Some("offline"));
    assert!(!screen.pulling);
    assert_eq!(screen.error, Some("Failed to pull model: offline".to_string()));
    screen.handle_key(press(Key::Char('p')));
    screen.handle_key(press(Key::Char('x')));
    assert_eq!(screen.handle_key(press(Key::Esc)), ModelsAction::Nothing);
    assert!(!screen.input_mode);
    assert_eq!(screen.input_buffer, "");
    screen.switch_tab();
    screen.handle_key(press(Key::Char('p')));
    assert!(!screen.input_mode);
    screen.pull_model("phi3");
    assert!(screen.pulling);
    assert_eq!(screen.pull_model, "phi3");
    assert_eq!(screen.error, None);
}

#[test]
fn models_are_deleted_by_selection() {
    let mut screen = ModelsScreen::new();
    assert_eq!(screen.handle_key(press(Key::Char('d'))), ModelsAction::Nothing);
    screen.models_loaded(LoadedModels::Ollama(Ok(vec![model("a"), model("b")])));
    screen.next();
    assert_eq!(screen.delete_selected(), Some("b".to_string()));
    assert_eq!(screen.handle_key(press(Key::Char('d'))), ModelsAction::Delete("b".to_string()));
    assert_eq!(screen.handle_key(press(Key::Delete)), ModelsAction::Delete("b".to_string()));
    assert_eq!(screen.handle_key(press(Key::Char('r'))), ModelsAction::Load);
    screen.delete_failed("in use");
    assert_eq!(screen.error, Some("Failed to delete model: in use".to_string()));
    screen.selected = Some(2);
    assert_eq!(screen.delete_selected(), None);
    screen.selected = None;
    assert_eq!(screen.delete_selected(), None);
    screen.selected = Some(0);
    screen.switch_tab();
    assert_eq!(screen.delete_selected(), None);
    assert_eq!(screen.handle_key(press(Key::Delete)), ModelsAction::Nothing);
}
