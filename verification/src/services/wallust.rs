//! The colours of the desktop theme, as the theming tool writes them out.

use vstd::prelude::*;
use crate::config::Config;
use crate::paths::{cache_dir, expand_with_home, expanded, home_dir, join_path, joined_path};
use crate::text::{chars_of, find_from, first_occurrence, has_prefix, lemma_first_occurrence,
    pair_views, parse_number, parse_unsigned, slice_views, split, split_char, starts_with, str_eq,
    string_views, strip_prefixes, trim, trim_class, trimmed, trimmed_of, without_prefixes,
    CharClass};

verus! {

/// The number of colours in a palette.
pub const PALETTE_SIZE: usize = 16;

/// Parsed theme colours.
#[derive(Debug, Clone, PartialEq, Eq)]
pub struct WallustColors {
    pub background: String,
    pub foreground: String,
    pub cursor: String,
    /// The palette, colours 0 to 15.
    pub colors: Vec<String>,
    /// Every colour by its name, each name once.
    pub color_map: Vec<(String, String)>,
}

/// What a set of theme colours says.
pub struct ColorsView {
    pub background: Seq<char>,
    pub foreground: Seq<char>,
    pub cursor: Seq<char>,
    pub colors: Seq<Seq<char>>,
    pub color_map: Seq<(Seq<char>, Seq<char>)>,
}

impl View for WallustColors {
    type V = ColorsView;

    open spec fn view(&self) -> ColorsView {
        ColorsView {
            background: self.background@,
            foreground: self.foreground@,
            cursor: self.cursor@,
            colors: string_views(self.colors@),
            color_map: pair_views(self.color_map@),
        }
    }
}

/// The position of the entry for `name` at or after `i`.
pub open spec fn entry_position(entries: Seq<(Seq<char>, Seq<char>)>, name: Seq<char>, i: int)
    -> Option<int>
    decreases entries.len() - i,
{
    if i < 0 || i >= entries.len() {
        None
    } else if entries[i].0 == name {
        Some(i)
    } else {
        entry_position(entries, name, i + 1)
    }
}

/// The entries with `value` stored under `name`: in place of the entry that
/// was there, or at the end.
pub open spec fn with_entry(
    entries: Seq<(Seq<char>, Seq<char>)>,
    name: Seq<char>,
    value: Seq<char>,
) -> Seq<(Seq<char>, Seq<char>)> {
    match entry_position(entries, name, 0) {
        Some(i) => entries.update(i, (name, value)),
        None => entries.push((name, value)),
    }
}

impl ColorsView {
    /// The colour at `index` of the palette.
    pub open spec fn color_at(self, index: int) -> Option<Seq<char>> {
        if 0 <= index < self.colors.len() {
            Some(self.colors[index])
        } else {
            None
        }
    }

    /// The colour stored under `name`.
    pub open spec fn named(self, name: Seq<char>) -> Option<Seq<char>> {
        match entry_position(self.color_map, name, 0) {
            Some(i) => Some(self.color_map[i].1),
            None => None,
        }
    }

    /// The colour at `index` of the palette, or `fallback` where the palette
    /// is shorter.
    pub open spec fn color_or(self, index: int, fallback: Seq<char>) -> Seq<char> {
        match self.color_at(index) {
            Some(c) => c,
            None => fallback,
        }
    }
}

impl WallustColors {
    /// The colour at `index` of the palette.
    pub fn color(&self, index: usize) -> (r: Option<&String>)
        ensures
            match r {
                Some(c) => self@.color_at(index as int) == Some(c@),
                None => self@.color_at(index as int) is None,
            },
    {
        if index < self.colors.len() {
            Some(&self.colors[index])
        } else {
            None
        }
    }

    /// The colour stored under `name`, such as `color0` or `background`.
    pub fn get(&self, name: &str) -> (r: Option<&String>)
        ensures
            match r {
                Some(c) => self@.named(name@) == Some(c@),
                None => self@.named(name@) is None,
            },
    {
        let mut i: usize = 0;
        while i < self.color_map.len()
            invariant
                i <= self.color_map.len(),
                entry_position(self@.color_map, name@, 0) == entry_position(
                    self@.color_map,
                    name@,
                    i as int,
                ),
            decreases self.color_map.len() - i,
        {
            if str_eq(self.color_map[i].0.as_str(), name) {
                return Some(&self.color_map[i].1);
            }
            i += 1;
        }
        None
    }

    /// The colour at `index` of the palette, or `fallback` where the palette
    /// is shorter.
    fn color_or<'a>(&'a self, index: usize, fallback: &'a str) -> (r: &'a str)
        ensures
            r@ == self@.color_or(index as int, fallback@),
    {
        if index < self.colors.len() {
            self.colors[index].as_str()
        } else {
            fallback
        }
    }

    /// The primary accent colour: colour 4.
    pub fn accent(&self) -> (r: &str)
        ensures
            r@ == self@.color_or(4, "#89b4fa"@),
    {
        self.color_or(4, "#89b4fa")
    }

    /// The secondary accent colour: colour 6.
    pub fn accent_secondary(&self) -> (r: &str)
        ensures
            r@ == self@.color_or(6, "#94e2d5"@),
    {
        self.color_or(6, "#94e2d5")
    }

    /// The colour of warnings and errors: colour 1.
    pub fn error(&self) -> (r: &str)
        ensures
            r@ == self@.color_or(1, "#f38ba8"@),
    {
        self.color_or(1, "#f38ba8")
    }

    /// The colour of success: colour 2.
    pub fn success(&self) -> (r: &str)
        ensures
            r@ == self@.color_or(2, "#a6e3a1"@),
    {
        self.color_or(2, "#a6e3a1")
    }

    /// The colour of muted text: colour 8.
    pub fn muted(&self) -> (r: &str)
        ensures
            r@ == self@.color_or(8, "#6c7086"@),
    {
        self.color_or(8, "#6c7086")
    }
}

impl Default for WallustColors {
    fn default() -> (r: WallustColors)
        ensures
            r@.background.len() == 0,
            r@.foreground.len() == 0,
            r@.cursor.len() == 0,
            r@.colors.len() == 0,
            r@.color_map.len() == 0,
    {
        WallustColors {
            background: String::new(),
            foreground: String::new(),
            cursor: String::new(),
            colors: Vec::new(),
            color_map: Vec::new(),
        }
    }
}

/// The name and the value that a line assigns, if it assigns any. A line is
/// read without the white space around it; an empty line, a line that
/// begins with `#` and a line without `=` assign nothing. The name stands
/// before the first `=`, without white space around it and without any
/// leading `export ` and `wallust_`. The value is the rest, without white
/// space and then without quotes around it.
pub open spec fn assignment(line: Seq<char>) -> Option<(Seq<char>, Seq<char>)> {
    let t = trimmed(line);
    if t.len() == 0 || t[0] == '#' {
        None
    } else {
        match first_occurrence(t, seq!['='], 0) {
            Some(eq) => Some(
                (
                    without_prefixes(
                        without_prefixes(trimmed(t.subrange(0, eq)), "export "@),
                        "wallust_"@,
                    ),
                    trimmed_of(trimmed(t.subrange(eq + 1, t.len() as int)), CharClass::Quote),
                ),
            ),
            None => None,
        }
    }
}

/// The number of the palette colour that a name of the form `color<n>`
/// stands for, where `n` is at most 15.
pub open spec fn palette_index(name: Seq<char>) -> Option<nat> {
    if has_prefix(name, "color"@) {
        parse_unsigned(name.skip(5), 15)
    } else {
        None
    }
}

/// The colours after `value` was assigned to `name`: the value is stored
/// under the name, and it becomes the background, the foreground, the
/// cursor or a colour of the palette where the name says so.
pub open spec fn assigned(colors: ColorsView, name: Seq<char>, value: Seq<char>) -> ColorsView {
    let stored = ColorsView { color_map: with_entry(colors.color_map, name, value), ..colors };
    if name == "background"@ {
        ColorsView { background: value, ..stored }
    } else if name == "foreground"@ {
        ColorsView { foreground: value, ..stored }
    } else if name == "cursor"@ {
        ColorsView { cursor: value, ..stored }
    } else {
        match palette_index(name) {
            Some(index) => if index < stored.colors.len() {
                ColorsView { colors: stored.colors.update(index as int, value), ..stored }
            } else {
                stored
            },
            None => stored,
        }
    }
}

/// The colours after a line was read.
pub open spec fn after_line(colors: ColorsView, line: Seq<char>) -> ColorsView {
    match assignment(line) {
        Some((name, value)) => assigned(colors, name, value),
        None => colors,
    }
}

/// The colours after a run of lines was read, one after the other.
pub open spec fn after_lines(colors: ColorsView, lines: Seq<Seq<char>>) -> ColorsView
    decreases lines.len(),
{
    if lines.len() == 0 {
        colors
    } else {
        after_line(after_lines(colors, lines.drop_last()), lines.last())
    }
}

/// The colours before anything was read: a palette of sixteen empty
/// colours, and nothing else.
pub open spec fn blank_colors() -> ColorsView {
    ColorsView {
        background: Seq::empty(),
        foreground: Seq::empty(),
        cursor: Seq::empty(),
        colors: Seq::new(PALETTE_SIZE as nat, |i: int| Seq::<char>::empty()),
        color_map: Seq::empty(),
    }
}

/// The colours with what is missing filled in: a missing background is
/// colour 0, a missing foreground is colour 7, and a missing cursor is the
/// foreground.
pub open spec fn completed(colors: ColorsView) -> ColorsView {
    let background = if colors.background.len() == 0 {
        colors.color_or(0, "#1e1e2e"@)
    } else {
        colors.background
    };
    let foreground = if colors.foreground.len() == 0 {
        colors.color_or(7, "#cdd6f4"@)
    } else {
        colors.foreground
    };
    let cursor = if colors.cursor.len() == 0 {
        foreground
    } else {
        colors.cursor
    };
    ColorsView { background, foreground, cursor, ..colors }
}

/// The colours that the content of a colour file describes, which holds one
/// assignment per line.
pub open spec fn parsed_colors(content: Seq<char>) -> ColorsView {
    completed(after_lines(blank_colors(), split(content, '\n')))
}

/// The name and the value that a line assigns, if it assigns any.
pub fn read_assignment<'a>(line: &'a str) -> (r: Option<(&'a str, &'a str)>)
    ensures
        match r {
            Some((name, value)) => assignment(line@) == Some((name@, value@)),
            None => assignment(line@) is None,
        },
{
    let t = trim(line);
    let tv = chars_of(t);
    let n: usize = tv.len();
    if n == 0 || tv[0] == '#' {
        return None;
    }
    let mut sign: Vec<char> = Vec::new();
    sign.push('=');
    assert(sign@ =~= seq!['=']);
    let eq = match find_from(&tv, &sign, 0) {
        Some(eq) => eq,
        None => {
            return None;
        },
    };
    proof {
        lemma_first_occurrence(tv@, sign@, 0);
    }
    let name = strip_prefixes(strip_prefixes(trim(t.substring_char(0, eq)), "export "), "wallust_");
    let value = trim_class(trim(t.substring_char(eq + 1, n)), CharClass::Quote);
    Some((name, value))
}

/// Stores `value` under `name`: in place of the entry that was there, or at
/// the end.
pub fn put_entry(entries: &mut Vec<(String, String)>, name: &str, value: &str)
    ensures
        pair_views(final(entries)@) == with_entry(pair_views(old(entries)@), name@, value@),
{
    let mut i: usize = 0;
    while i < entries.len()
        invariant
            i <= entries.len(),
            *entries == *old(entries),
            entry_position(pair_views(entries@), name@, 0) == entry_position(
                pair_views(entries@),
                name@,
                i as int,
            ),
        decreases entries.len() - i,
    {
        if str_eq(entries[i].0.as_str(), name) {
            let ghost before = entries@;
            entries.remove(i);
            entries.insert(i, (String::from_str(name), String::from_str(value)));
            assert(pair_views(entries@) =~= pair_views(before).update(i as int, (name@, value@)));
            return ;
        }
        i += 1;
    }
    let ghost before = entries@;
    entries.push((String::from_str(name), String::from_str(value)));
    assert(pair_views(entries@) =~= pair_views(before).push((name@, value@)));
}

/// The number of the palette colour that a name stands for.
pub fn read_palette_index(name: &str) -> (r: Option<usize>)
    ensures
        match r {
            Some(index) => palette_index(name@) == Some(index as nat),
            None => palette_index(name@) is None,
        },
{
    proof {
        reveal_strlit("color");
    }
    if !starts_with(name, "color") {
        return None;
    }
    let n: usize = name.unicode_len();
    let digits = name.substring_char(5, n);
    assert(digits@ =~= name@.skip(5));
    match parse_number(digits, 15) {
        Some(index) => Some(index as usize),
        None => None,
    }
}

impl WallustColors {
    /// Assigns `value` to `name`.
    pub fn assign(&mut self, name: &str, value: &str)
        ensures
            final(self)@ == assigned(old(self)@, name@, value@),
    {
        put_entry(&mut self.color_map, name, value);
        if str_eq(name, "background") {
            self.background = String::from_str(value);
        } else if str_eq(name, "foreground") {
            self.foreground = String::from_str(value);
        } else if str_eq(name, "cursor") {
            self.cursor = String::from_str(value);
        } else {
            match read_palette_index(name) {
                Some(index) => {
                    if index < self.colors.len() {
                        let ghost before = self.colors@;
                        self.colors.remove(index);
                        self.colors.insert(index, String::from_str(value));
                        assert(string_views(self.colors@) =~= string_views(before).update(
                            index as int,
                            value@,
                        ));
                    }
                },
                None => {},
            }
        }
    }

    /// Fills in what is missing.
    pub fn complete(&mut self)
        ensures
            final(self)@ == completed(old(self)@),
    {
        if self.background.as_str().is_empty() {
            self.background = String::from_str(self.color_or(0, "#1e1e2e"));
        }
        if self.foreground.as_str().is_empty() {
            self.foreground = String::from_str(self.color_or(7, "#cdd6f4"));
        }
        if self.cursor.as_str().is_empty() {
            self.cursor = self.foreground.clone();
        }
    }
}

/// Service for the integration with the theming tool.
pub struct WallustService {
    pub config: Config,
}

impl WallustService {
    /// A service that goes by the given configuration.
    pub fn new(config: Config) -> (r: WallustService)
        ensures
            r.config == config,
    {
        WallustService { config }
    }

    /// The colours that the content of a colour file describes.
    pub fn parse_colors_sh(&self, content: &str) -> (r: WallustColors)
        ensures
            r@ == parsed_colors(content@),
    {
        let mut palette: Vec<String> = Vec::new();
        let mut k: usize = 0;
        while k < PALETTE_SIZE
            invariant
                k <= PALETTE_SIZE,
                palette@.len() == k,
                forall|j: int| 0 <= j < k ==> (#[trigger] palette@[j])@.len() == 0,
            decreases PALETTE_SIZE - k,
        {
            palette.push(String::new());
            k += 1;
        }
        proof {
            assert forall|j: int| 0 <= j < PALETTE_SIZE implies string_views(palette@)[j]
                == blank_colors().colors[j] by {
                assert(palette@[j]@ =~= Seq::<char>::empty());
            }
        }
        let mut colors = WallustColors {
            background: String::new(),
            foreground: String::new(),
            cursor: String::new(),
            colors: palette,
            color_map: Vec::new(),
        };
        assert(colors@.colors =~= blank_colors().colors);
        assert(colors@.color_map =~= blank_colors().color_map);
        assert(colors@.background =~= blank_colors().background);
        assert(colors@.foreground =~= blank_colors().foreground);
        assert(colors@.cursor =~= blank_colors().cursor);
        let lines = split_char(content, '\n');
        let ghost all = split(content@, '\n');
        assert(all.take(0) =~= Seq::<Seq<char>>::empty());
        let mut i: usize = 0;
        while i < lines.len()
            invariant
                i <= lines.len(),
                slice_views(lines@) == all,
                colors@ == after_lines(blank_colors(), all.take(i as int)),
            decreases lines.len() - i,
        {
            proof {
                assert(all.take(i + 1).drop_last() =~= all.take(i as int));
                assert(all.take(i + 1).last() == lines@[i as int]@);
            }
            match read_assignment(lines[i]) {
                Some((name, value)) => {
                    colors.assign(name, value);
                },
                None => {},
            }
            i += 1;
        }
        assert(all.take(all.len() as int) =~= all);
        colors.complete();
        colors
    }

    /// The colours to go by, given the content of the colour file if there
    /// is one: the colours it describes, or the default colours.
    pub fn load_colors(&self, content: Option<&str>) -> (r: WallustColors)
        ensures
            match content {
                Some(text) => r@ == parsed_colors(text@),
                None => r@ == default_palette(),
            },
    {
        match content {
            Some(text) => self.parse_colors_sh(text),
            None => self.default_colors(),
        }
    }

    /// The default colours.
    pub fn default_colors(&self) -> (r: WallustColors)
        ensures
            r@ == default_palette(),
    {
        let mut colors: Vec<String> = Vec::new();
        colors.push(String::from_str("#45475a"));
        colors.push(String::from_str("#f38ba8"));
        colors.push(String::from_str("#a6e3a1"));
        colors.push(String::from_str("#f9e2af"));
        colors.push(String::from_str("#89b4fa"));
        colors.push(String::from_str("#f5c2e7"));
        colors.push(String::from_str("#94e2d5"));
        colors.push(String::from_str("#bac2de"));
        colors.push(String::from_str("#585b70"));
        colors.push(String::from_str("#f38ba8"));
        colors.push(String::from_str("#a6e3a1"));
        colors.push(String::from_str("#f9e2af"));
        colors.push(String::from_str("#89b4fa"));
        colors.push(String::from_str("#f5c2e7"));
        colors.push(String::from_str("#94e2d5"));
        colors.push(String::from_str("#a6adc8"));
        let r = WallustColors {
            background: String::from_str("#1e1e2e"),
            foreground: String::from_str("#cdd6f4"),
            cursor: String::from_str("#f5e0dc"),
            colors,
            color_map: Vec::new(),
        };
        assert(r@.colors =~= default_palette().colors);
        assert(r@.color_map =~= default_palette().color_map);
        r
    }
}

/// The default colours: a dark palette, with nothing stored by name.
pub open spec fn default_palette() -> ColorsView {
    ColorsView {
        background: "#1e1e2e"@,
        foreground: "#cdd6f4"@,
        cursor: "#f5e0dc"@,
        colors: seq![
            "#45475a"@,
            "#f38ba8"@,
            "#a6e3a1"@,
            "#f9e2af"@,
            "#89b4fa"@,
            "#f5c2e7"@,
            "#94e2d5"@,
            "#bac2de"@,
            "#585b70"@,
            "#f38ba8"@,
            "#a6e3a1"@,
            "#f9e2af"@,
            "#89b4fa"@,
            "#f5c2e7"@,
            "#94e2d5"@,
            "#a6adc8"@,
        ],
        color_map: Seq::empty(),
    }
}

/// Why the theming tool could not be put to work.
#[derive(Debug, Clone, Copy, PartialEq, Eq)]
pub enum WallustError {
    /// The script that refreshes the theme is not there.
    ScriptMissing,
    /// The theming tool ended with a failure.
    ToolFailed,
}

impl WallustService {
    /// The path of the colour file, given the user's cache directory if
    /// there is one: `wallust/colors.sh` below it.
    pub fn colors_path(cache_dir: Option<&str>) -> (r: String)
        ensures
            r@ == joined_path(
                match cache_dir {
                    Some(dir) => dir@,
                    None => Seq::empty(),
                },
                "wallust/colors.sh"@,
            ),
    {
        match cache_dir {
            Some(dir) => join_path(dir, "wallust/colors.sh"),
            None => {
                let empty = String::new();
                join_path(empty.as_str(), "wallust/colors.sh")
            },
        }
    }

    /// The path of the colour file, which goes by the user's cache directory
    /// as the environment gives it.
    pub fn colors_file() -> (r: String)
        ensures
            exists|dir: Seq<char>| r@ == joined_path(dir, "wallust/colors.sh"@),
    {
        match cache_dir() {
            Some(dir) => WallustService::colors_path(Some(dir.as_str())),
            None => WallustService::colors_path(None),
        }
    }

    /// The command that applies an image as wallpaper and refreshes the
    /// theme, given whether the refresh script is there: the script with the
    /// image as its argument. It is to run by itself, cut off from the
    /// terminal.
    pub fn apply_wallpaper(&self, image_path: &str, script_present: bool) -> (r: Result<
        Vec<String>,
        WallustError,
    >)
        ensures
            match r {
                Ok(command) => script_present && string_views(command@) == seq![
                    self.config.wallust.refresh_script@,
                    image_path@,
                ],
                Err(e) => !script_present && e == WallustError::ScriptMissing,
            },
    {
        if !script_present {
            return Err(WallustError::ScriptMissing);
        }
        let mut command: Vec<String> = Vec::new();
        command.push(self.config.wallust.refresh_script.clone());
        command.push(String::from_str(image_path));
        assert(string_views(command@) =~= seq![self.config.wallust.refresh_script@, image_path@]);
        Ok(command)
    }

    /// The command that has the theming tool take its colours from an
    /// image.
    pub fn generate_colors(&self, image_path: &str) -> (r: Vec<String>)
        ensures
            string_views(r@) == seq!["wallust"@, "run"@, image_path@],
    {
        let mut command: Vec<String> = Vec::new();
        command.push(String::from_str("wallust"));
        command.push(String::from_str("run"));
        command.push(String::from_str(image_path));
        assert(string_views(command@) =~= seq!["wallust"@, "run"@, image_path@]);
        command
    }

    /// What the way the theming tool ended amounts to.
    pub fn colors_generated(succeeded: bool) -> (r: Result<(), WallustError>)
        ensures
            r == (if succeeded {
                Ok::<(), WallustError>(())
            } else {
                Err::<(), WallustError>(WallustError::ToolFailed)
            }),
    {
        if succeeded {
            Ok(())
        } else {
            Err(WallustError::ToolFailed)
        }
    }

    /// The path of the file that names the current wallpaper, given the
    /// user's cache directory.
    pub fn current_wallpaper(cache_dir: &str) -> (r: String)
        ensures
            r@ == joined_path(cache_dir@, "wallust/current-wallpaper"@),
    {
        join_path(cache_dir, "wallust/current-wallpaper")
    }

    /// The path of the file that names the current wallpaper, which goes by
    /// the user's cache directory as the environment gives it; nothing where
    /// there is no such directory.
    pub fn current_wallpaper_file() -> (r: Option<String>)
        ensures
            r matches Some(path) ==> exists|dir: Seq<char>|
                path@ == joined_path(dir, "wallust/current-wallpaper"@),
    {
        match cache_dir() {
            Some(dir) => Some(WallustService::current_wallpaper(dir.as_str())),
            None => None,
        }
    }

    /// The path of the file that names the current colour scheme, which goes
    /// by the user's home directory as the environment gives it.
    pub fn current_scheme_file(&self) -> (r: String)
        ensures
            exists|home: Option<Seq<char>>|
                r@ == expanded(self.config.wallust.color_scheme_path@, home),
    {
        match home_dir() {
            Some(home) => {
                let r = self.current_scheme(Some(home.as_str()));
                assert(r@ == expanded(self.config.wallust.color_scheme_path@, Some(home@)));
                r
            },
            None => {
                let r = self.current_scheme(None);
                assert(r@ == expanded(self.config.wallust.color_scheme_path@, None));
                r
            },
        }
    }

    /// The path of the file that names the current colour scheme, given the
    /// user's home directory if there is one.
    pub fn current_scheme(&self, home: Option<&str>) -> (r: String)
        ensures
            r@ == expanded(
                self.config.wallust.color_scheme_path@,
                match home {
                    Some(dir) => Some(dir@),
                    None => None,
                },
            ),
    {
        expand_with_home(self.config.wallust.color_scheme_path.as_str(), home)
    }

    /// What a file that names something holds: its content without the
    /// white space around it.
    pub fn named_in(content: &str) -> (r: String)
        ensures
            r@ == trimmed(content@),
    {
        String::from_str(trim(content))
    }
}

} // verus!
