use jwst_cosmos::config::Config;
use jwst_cosmos::services::wallust::{
    put_entry, read_assignment, read_palette_index, WallustColors, WallustError, WallustService,
    PALETTE_SIZE,
};

fn service() -> WallustService {
    WallustService::new(Config::default())
}

#[test]
fn assignments_are_read_from_lines() {
    assert_eq!(read_assignment("export color0='#1e1e2e'"), Some(("color0", "#1e1e2e")));
    assert_eq!(read_assignment("wallust_color1=\"#f38ba8\""), Some(("color1", "#f38ba8")));
    assert_eq!(read_assignment("  background = '#000000'  \r"), Some(("background", "#000000")));
    assert_eq!(read_assignment("export wallust_cursor=#fff"), Some(("cursor", "#fff")));
    assert_eq!(read_assignment("export export x=1"), Some(("x", "1")));
    assert_eq!(read_assignment("wallust_export y=2"), Some(("export y", "2")));
    assert_eq!(read_assignment("a=b=c"), Some(("a", "b=c")));
    assert_eq!(read_assignment("=v"), Some(("", "v")));
    assert_eq!(read_assignment("k="), Some(("k", "")));
    assert_eq!(read_assignment("k='\"'\"'"), Some(("k", "")));
    assert_eq!(read_assignment("k=' v '"), Some(("k", " v ")));
    assert_eq!(read_assignment("k='a'b'"), Some(("k", "a'b")));
}

#[test]
fn lines_without_an_assignment_are_skipped() {
    for line in ["", "   ", "# comment", "  # color0='#fff'", "#!/bin/sh", "no sign here", "\t"] {
        assert_eq!(read_assignment(line), None, "{line:?}");
    }
}

#[test]
fn palette_names_give_their_index() {
    assert_eq!(read_palette_index("color0"), Some(0));
    assert_eq!(read_palette_index("color15"), Some(15));
    assert_eq!(read_palette_index("color07"), Some(7));
    assert_eq!(read_palette_index("color+3"), Some(3));
    for name in ["color16", "color", "color-1", "colour1", "Color1", "color1a", "color 1", "background", ""] {
        assert_eq!(read_palette_index(name), None, "{name:?}");
    }
    assert_eq!(PALETTE_SIZE, 16);
}

#[test]
fn entries_are_stored_once_per_name() {
    let mut entries: Vec<(String, String)> = Vec::new();
    put_entry(&mut entries, "a", "1");
    put_entry(&mut entries, "b", "2");
    put_entry(&mut entries, "a", "3");
    assert_eq!(
        entries,
        vec![("a".to_string(), "3".to_string()), ("b".to_string(), "2".to_string())]
    );
}

#[test]
fn colour_file_is_parsed() {
    let content = "#!/bin/sh\n\
        # generated\n\
        export wallpaper='/home/alice/Pictures/webb.jpg'\n\
        \n\
        export background='#101018'\n\
        export foreground=\"#e0e0f0\"\n\
        export cursor='#ffcc00'\r\n\
        export color0='#000000'\n\
        export color1='#aa0000'\n\
        wallust_color4='#0000aa'\n\
        export color15='#ffffff'\n\
        export color16='#123456'\n\
        export color1='#bb0000'\n";
    let colors = service().parse_colors_sh(content);
    assert_eq!(colors.background, "#101018");
    assert_eq!(colors.foreground, "#e0e0f0");
    assert_eq!(colors.cursor, "#ffcc00");
    assert_eq!(colors.colors.len(), 16);
    assert_eq!(colors.colors[0], "#000000");
    assert_eq!(colors.colors[1], "#bb0000");
    assert_eq!(colors.colors[2], "");
    assert_eq!(colors.colors[4], "#0000aa");
    assert_eq!(colors.colors[15], "#ffffff");
    assert_eq!(colors.get("wallpaper"), Some(&"/home/alice/Pictures/webb.jpg".to_string()));
    assert_eq!(colors.get("color16"), Some(&"#123456".to_string()));
    assert_eq!(colors.get("color1"), Some(&"#bb0000".to_string()));
    assert_eq!(colors.get("color2"), None);
    assert_eq!(colors.color_map.len(), 9);
    assert_eq!(colors.color(1), Some(&"#bb0000".to_string()));
    assert_eq!(colors.color(16), None);
    assert_eq!(colors.accent(), "#0000aa");
    assert_eq!(colors.error(), "#bb0000");
    assert_eq!(colors.success(), "");
}

#[test]
fn missing_colours_are_filled_in() {
    let colors = service().parse_colors_sh("color0='#111111'\ncolor7='#eeeeee'\n");
    assert_eq!(colors.background, "#111111");
    assert_eq!(colors.foreground, "#eeeeee");
    assert_eq!(colors.cursor, "#eeeeee");
    let bare = service().parse_colors_sh("");
    assert_eq!(bare.background, "");
    assert_eq!(bare.foreground, "");
    assert_eq!(bare.cursor, "");
    assert_eq!(bare.colors, vec![String::new(); 16]);
    assert!(bare.color_map.is_empty());
    let only_foreground = service().parse_colors_sh("foreground=#abc");
    assert_eq!(only_foreground.cursor, "#abc");
    assert_eq!(only_foreground.background, "");
}

#[test]
fn default_colours_are_the_dark_palette() {
    let colors = service().default_colors();
    assert_eq!(colors.background, "#1e1e2e");
    assert_eq!(colors.foreground, "#cdd6f4");
    assert_eq!(colors.cursor, "#f5e0dc");
    assert_eq!(
        colors.colors,
        vec![
            "#45475a", "#f38ba8", "#a6e3a1", "#f9e2af", "#89b4fa", "#f5c2e7", "#94e2d5",
            "#bac2de", "#585b70", "#f38ba8", "#a6e3a1", "#f9e2af", "#89b4fa", "#f5c2e7",
            "#94e2d5", "#a6adc8",
        ]
    );
    assert!(colors.color_map.is_empty());
    assert_eq!(colors.accent(), "#89b4fa");
    assert_eq!(colors.accent_secondary(), "#94e2d5");
    assert_eq!(colors.error(), "#f38ba8");
    assert_eq!(colors.success(), "#a6e3a1");
    assert_eq!(colors.muted(), "#585b70");
    assert_eq!(service().load_colors(None), colors);
    assert_eq!(service().load_colors(Some("background=#000")).background, "#000");
}

#[test]
fn accessors_fall_back_on_a_short_palette() {
    let colors = WallustColors::default();
    assert!(colors.colors.is_empty());
    assert_eq!(colors.color(0), None);
    assert_eq!(colors.get("background"), None);
    assert_eq!(colors.accent(), "#89b4fa");
    assert_eq!(colors.accent_secondary(), "#94e2d5");
    assert_eq!(colors.error(), "#f38ba8");
    assert_eq!(colors.success(), "#a6e3a1");
    assert_eq!(colors.muted(), "#6c7086");
}

#[test]
fn assign_and_complete_work_step_by_step() {
    let mut colors = WallustColors::default();
    colors.colors = vec![String::new(); 3];
    colors.assign("color2", "#222");
    colors.assign("color3", "#333");
    colors.assign("cursor", "#ccc");
    assert_eq!(colors.colors, vec!["", "", "#222"]);
    assert_eq!(colors.cursor, "#ccc");
    assert_eq!(colors.color_map.len(), 3);
    colors.complete();
    assert_eq!(colors.background, "");
    assert_eq!(colors.foreground, "#cdd6f4");
    assert_eq!(colors.cursor, "#ccc");
}

#[test]
fn tool_commands_are_planned() {
    let s = service();
    assert_eq!(
        s.apply_wallpaper("/home/alice/a.jpg", true),
        Ok(vec!["/etc/nixos/scripts/refresh-theme".to_string(), "/home/alice/a.jpg".to_string()])
    );
    assert_eq!(s.apply_wallpaper("/home/alice/a.jpg", false), Err(WallustError::ScriptMissing));
    assert_eq!(s.generate_colors("/x.png"), vec!["wallust", "run", "/x.png"]);
    assert_eq!(WallustService::colors_generated(true), Ok(()));
    assert_eq!(WallustService::colors_generated(false), Err(WallustError::ToolFailed));
    assert_eq!(WallustService::colors_path(Some("/home/alice/.cache")), "/home/alice/.cache/wallust/colors.sh");
    assert_eq!(WallustService::colors_path(None), "wallust/colors.sh");
    assert_eq!(WallustService::current_wallpaper("/c"), "/c/wallust/current-wallpaper");
    assert_eq!(s.current_scheme(Some("/home/alice")), "/home/alice/.local/state/caelestia/scheme/current.txt");
    assert_eq!(s.current_scheme(None), "~/.local/state/caelestia/scheme/current.txt");
    assert_eq!(WallustService::named_in(" mocha\n"), "mocha");
    assert!(WallustService::colors_file().ends_with("wallust/colors.sh"));
    if let Some(path) = WallustService::current_wallpaper_file() {
        assert!(path.ends_with("wallust/current-wallpaper"));
    }
    assert!(s.current_scheme_file().ends_with(".local/state/caelestia/scheme/current.txt"));
}
