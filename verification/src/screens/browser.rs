//! The image browser.

use vstd::prelude::*;
use crate::screens::{position_after, position_before, step_back, step_on, Key, KeyPress};
use crate::services::chain;
use crate::services::jwst_esa::EsaImage;

verus! {

/// Where the browser takes its images from.
#[derive(Debug, Clone, Copy, PartialEq, Eq, Structural)]
pub enum ImageSource {
    Esa,
    JwstApi,
}

impl ImageSource {
    /// The name of the source.
    pub fn name(&self) -> (r: &'static str)
        ensures
            r@ == (match self {
                ImageSource::Esa => "ESA/Webb Gallery"@,
                ImageSource::JwstApi => "JWST API"@,
            }),
    {
        match self {
            ImageSource::Esa => "ESA/Webb Gallery",
            ImageSource::JwstApi => "JWST API",
        }
    }

    /// The other source.
    pub fn toggled(&self) -> (r: ImageSource)
        ensures
            r == (match self {
                ImageSource::Esa => ImageSource::JwstApi,
                ImageSource::JwstApi => ImageSource::Esa,
            }),
    {
        match self {
            ImageSource::Esa => ImageSource::JwstApi,
            ImageSource::JwstApi => ImageSource::Esa,
        }
    }
}

/// What the browser asks its caller to do after a key.
#[derive(Debug, Clone, Copy, PartialEq, Eq, Structural)]
pub enum BrowserAction {
    /// Nothing.
    Nothing,
    /// Download the selected image.
    Download,
    /// Apply the selected image, or the one downloaded last, as wallpaper.
    ApplyWallpaper,
    /// Load the list of images.
    Load { force_refresh: bool },
}

/// Browser screen state.
#[derive(Debug, Clone, PartialEq, Eq)]
pub struct BrowserScreen {
    pub source: ImageSource,
    pub esa_images: Vec<EsaImage>,
    /// The position of the selected image.
    pub selected: Option<usize>,
    pub loading: bool,
    pub error: Option<String>,
    pub show_detail: bool,
    /// The path of the image downloaded last.
    pub last_downloaded: Option<String>,
}

impl BrowserScreen {
    /// The selected image.
    pub open spec fn selection(self) -> Option<EsaImage> {
        match self.selected {
            Some(i) => if i < self.esa_images@.len() {
                Some(self.esa_images@[i as int])
            } else {
                None
            },
            None => None,
        }
    }

    /// What a key asks the browser's caller to do.
    pub open spec fn action_of(key: Key) -> BrowserAction {
        match key {
            Key::Enter => BrowserAction::Download,
            Key::Char(c) => if c == 'w' {
                BrowserAction::ApplyWallpaper
            } else if c == 'r' {
                BrowserAction::Load { force_refresh: true }
            } else if c == 's' {
                BrowserAction::Load { force_refresh: false }
            } else {
                BrowserAction::Nothing
            },
            _ => BrowserAction::Nothing,
        }
    }

    /// The position selected after a key.
    pub open spec fn selected_after(self, key: Key) -> Option<usize> {
        let count = self.esa_images@.len();
        match key {
            Key::Up => Some(position_before(self.selected, count) as usize),
            Key::Down => Some(position_after(self.selected, count) as usize),
            Key::Char(c) => if c == 'k' {
                Some(position_before(self.selected, count) as usize)
            } else if c == 'j' {
                Some(position_after(self.selected, count) as usize)
            } else {
                self.selected
            },
            _ => self.selected,
        }
    }

    /// An empty browser on the ESA gallery, with the first position
    /// selected.
    pub fn new() -> (r: BrowserScreen)
        ensures
            r.source == ImageSource::Esa,
            r.esa_images@.len() == 0,
            r.selected == Some(0usize),
            !r.loading,
            r.error is None,
            !r.show_detail,
            r.last_downloaded is None,
    {
        BrowserScreen {
            source: ImageSource::Esa,
            esa_images: Vec::new(),
            selected: Some(0),
            loading: false,
            error: None,
            show_detail: false,
            last_downloaded: None,
        }
    }

    /// Begins to load the images: says which source to load from.
    pub fn load_images(&mut self) -> (r: ImageSource)
        ensures
            r == old(self).source,
            final(self).loading,
            final(self).error is None,
            final(self).source == old(self).source,
            final(self).esa_images == old(self).esa_images,
            final(self).selected == old(self).selected,
            final(self).show_detail == old(self).show_detail,
            final(self).last_downloaded == old(self).last_downloaded,
    {
        self.loading = true;
        self.error = None;
        self.source
    }

    /// Takes in how loading went: the images take the place of the list and
    /// the first is selected if there is one; a failure is shown. Nothing
    /// comes in where the source is one that is not loaded from.
    pub fn images_loaded(&mut self, outcome: Option<Result<Vec<EsaImage>, String>>)
        ensures
            !final(self).loading,
            final(self).source == old(self).source,
            final(self).show_detail == old(self).show_detail,
            final(self).last_downloaded == old(self).last_downloaded,
            match outcome {
                Some(Ok(images)) => final(self).esa_images == images && final(self).error
                    == old(self).error && final(self).selected == (if images@.len() > 0 {
                    Some(0usize)
                } else {
                    old(self).selected
                }),
                Some(Err(reason)) => final(self).esa_images == old(self).esa_images
                    && final(self).selected == old(self).selected
                    && (final(self).error matches Some(e) && e@
                    == "Failed to load images: "@ + reason@),
                None => final(self).esa_images == old(self).esa_images && final(self).selected
                    == old(self).selected && final(self).error == old(self).error,
            },
    {
        match outcome {
            Some(Ok(images)) => {
                self.esa_images = images;
                if self.esa_images.len() > 0 {
                    self.selected = Some(0);
                }
            },
            Some(Err(reason)) => {
                self.error = Some(chain("Failed to load images: ", reason.as_str()));
            },
            None => {},
        }
        self.loading = false;
    }

    /// The selected image.
    pub fn selected_image(&self) -> (r: Option<&EsaImage>)
        ensures
            match r {
                Some(image) => self.selection() == Some(*image),
                None => self.selection() is None,
            },
    {
        match self.selected {
            Some(i) => if i < self.esa_images.len() {
                Some(&self.esa_images[i])
            } else {
                None
            },
            None => None,
        }
    }

    /// Begins to download the selected image, if there is one: hands back a
    /// copy of the image to download.
    pub fn download_selected(&mut self) -> (r: Option<EsaImage>)
        ensures
            r == old(self).selection(),
            final(self).loading == (if r is Some {
                true
            } else {
                old(self).loading
            }),
            final(self).error == (if r is Some {
                None
            } else {
                old(self).error
            }),
            final(self).source == old(self).source,
            final(self).esa_images == old(self).esa_images,
            final(self).selected == old(self).selected,
            final(self).show_detail == old(self).show_detail,
            final(self).last_downloaded == old(self).last_downloaded,
    {
        let image = match self.selected_image() {
            Some(image) => image.copy(),
            None => {
                return None;
            },
        };
        self.loading = true;
        self.error = None;
        Some(image)
    }

    /// Takes in how the download went: the path of the file, or why there
    /// is none.
    pub fn download_finished(&mut self, outcome: Result<String, String>)
        ensures
            !final(self).loading,
            final(self).source == old(self).source,
            final(self).esa_images == old(self).esa_images,
            final(self).selected == old(self).selected,
            final(self).show_detail == old(self).show_detail,
            match outcome {
                Ok(path) => final(self).last_downloaded == Some(path) && final(self).error
                    == old(self).error,
                Err(reason) => final(self).last_downloaded == old(self).last_downloaded
                    && (final(self).error matches Some(e) && e@ == "Download failed: "@
                    + reason@),
            },
    {
        match outcome {
            Ok(path) => {
                self.last_downloaded = Some(path);
            },
            Err(reason) => {
                self.error = Some(chain("Download failed: ", reason.as_str()));
            },
        }
        self.loading = false;
    }

    /// The image to hand to the generator as reference, given the path of
    /// the downloaded copy of the selected image if there is one: that copy,
    /// or else the image downloaded last.
    pub fn get_reference_image_path(&self, downloaded: Option<String>) -> (r: Option<String>)
        ensures
            r == (match downloaded {
                Some(path) => Some(path),
                None => self.last_downloaded,
            }),
    {
        match downloaded {
            Some(path) => Some(path),
            None => match &self.last_downloaded {
                Some(path) => Some(path.clone()),
                None => None,
            },
        }
    }

    /// The image to apply as wallpaper, chosen like the reference image;
    /// where there is none, that is shown as an error.
    pub fn apply_as_wallpaper(&mut self, downloaded: Option<String>) -> (r: Option<String>)
        ensures
            r == (match downloaded {
                Some(path) => Some(path),
                None => old(self).last_downloaded,
            }),
            match r {
                Some(_) => final(self).error == old(self).error,
                None => final(self).error matches Some(e) && e@
                    == "No image downloaded yet - press Enter to download first"@,
            },
            final(self).loading == old(self).loading,
            final(self).source == old(self).source,
            final(self).esa_images == old(self).esa_images,
            final(self).selected == old(self).selected,
            final(self).show_detail == old(self).show_detail,
            final(self).last_downloaded == old(self).last_downloaded,
    {
        let r = self.get_reference_image_path(downloaded);
        if r.is_none() {
            self.error = Some(
                String::from_str("No image downloaded yet - press Enter to download first"),
            );
        }
        r
    }

    /// Takes in how applying the wallpaper went: a failure is shown, and a
    /// success clears what was shown.
    pub fn wallpaper_applied(&mut self, failure: Option<&str>)
        ensures
            match failure {
                Some(reason) => final(self).error matches Some(e) && e@
                    == "Failed to apply wallpaper: "@ + reason@,
                None => final(self).error is None,
            },
            final(self).loading == old(self).loading,
            final(self).source == old(self).source,
            final(self).esa_images == old(self).esa_images,
            final(self).selected == old(self).selected,
            final(self).show_detail == old(self).show_detail,
            final(self).last_downloaded == old(self).last_downloaded,
    {
        self.error = match failure {
            Some(reason) => Some(chain("Failed to apply wallpaper: ", reason)),
            None => None,
        };
    }

    /// Moves the selection up, going round.
    pub fn previous(&mut self)
        ensures
            final(self).selected == Some(
                position_before(old(self).selected, old(self).esa_images@.len()) as usize,
            ),
            final(self).loading == old(self).loading,
            final(self).error == old(self).error,
            final(self).source == old(self).source,
            final(self).esa_images == old(self).esa_images,
            final(self).show_detail == old(self).show_detail,
            final(self).last_downloaded == old(self).last_downloaded,
    {
        self.selected = Some(step_back(self.selected, self.esa_images.len()));
    }

    /// Moves the selection down, going round.
    pub fn next(&mut self)
        ensures
            final(self).selected == Some(
                position_after(old(self).selected, old(self).esa_images@.len()) as usize,
            ),
            final(self).loading == old(self).loading,
            final(self).error == old(self).error,
            final(self).source == old(self).source,
            final(self).esa_images == old(self).esa_images,
            final(self).show_detail == old(self).show_detail,
            final(self).last_downloaded == old(self).last_downloaded,
    {
        self.selected = Some(step_on(self.selected, self.esa_images.len()));
    }

    /// Takes in a key: the arrows and `k`, `j` move the selection, `s`
    /// changes the source, and the space bar shows or hides the details. The
    /// keys that need work done say so: Enter, `w`, `r`, and `s`.
    pub fn handle_key(&mut self, key: KeyPress) -> (r: BrowserAction)
        ensures
            r == BrowserScreen::action_of(key.key),
            final(self).selected == old(self).selected_after(key.key),
            final(self).source == (if key.key == Key::Char('s') {
                match old(self).source {
                    ImageSource::Esa => ImageSource::JwstApi,
                    ImageSource::JwstApi => ImageSource::Esa,
                }
            } else {
                old(self).source
            }),
            final(self).show_detail == (if key.key == Key::Char(' ') {
                !old(self).show_detail
            } else {
                old(self).show_detail
            }),
            final(self).loading == old(self).loading,
            final(self).error == old(self).error,
            final(self).esa_images == old(self).esa_images,
            final(self).last_downloaded == old(self).last_downloaded,
    {
        match key.key {
            Key::Up => {
                self.previous();
                BrowserAction::Nothing
            },
            Key::Down => {
                self.next();
                BrowserAction::Nothing
            },
            Key::Enter => BrowserAction::Download,
            Key::Char(c) => {
                if c == 'k' {
                    self.previous();
                    BrowserAction::Nothing
                } else if c == 'j' {
                    self.next();
                    BrowserAction::Nothing
                } else if c == 'w' {
                    BrowserAction::ApplyWallpaper
                } else if c == 'r' {
                    BrowserAction::Load { force_refresh: true }
                } else if c == 's' {
                    self.source = self.source.toggled();
                    BrowserAction::Load { force_refresh: false }
                } else if c == ' ' {
                    self.show_detail = !self.show_detail;
                    BrowserAction::Nothing
                } else {
                    BrowserAction::Nothing
                }
            },
            _ => BrowserAction::Nothing,
        }
    }
}

} // verus!
