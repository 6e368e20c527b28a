//! The image generation form.

use vstd::prelude::*;
use crate::screens::{Key, KeyPress};
use crate::services::comfyui::{Fraction, GenerationProgress, ProgressEvent};
use crate::text::{decimal, decimal_string, pair_views, pop_char, push_char};
use crate::utils::image_utils::SizePreset;

verus! {

/// How an image is generated from a reference image.
#[derive(Debug, Clone, Copy, PartialEq, Eq, Structural)]
pub enum GenerationMode {
    Img2Img,
    ControlNetDepth,
    ControlNetCanny,
}

impl GenerationMode {
    /// The name of the mode.
    pub open spec fn label(self) -> Seq<char> {
        match self {
            GenerationMode::Img2Img => "img2img"@,
            GenerationMode::ControlNetDepth => "ControlNet Depth"@,
            GenerationMode::ControlNetCanny => "ControlNet Canny"@,
        }
    }

    /// Every mode, in the order in which the form offers them.
    pub open spec fn every() -> Seq<GenerationMode> {
        seq![
            GenerationMode::Img2Img,
            GenerationMode::ControlNetDepth,
            GenerationMode::ControlNetCanny,
        ]
    }

    /// The name of the mode.
    pub fn name(&self) -> (r: &'static str)
        ensures
            r@ == self.label(),
    {
        match self {
            GenerationMode::Img2Img => "img2img",
            GenerationMode::ControlNetDepth => "ControlNet Depth",
            GenerationMode::ControlNetCanny => "ControlNet Canny",
        }
    }

    /// Every mode, in the order in which the form offers them.
    pub fn all() -> (r: Vec<GenerationMode>)
        ensures
            r@ == GenerationMode::every(),
    {
        let mut r: Vec<GenerationMode> = Vec::new();
        r.push(GenerationMode::Img2Img);
        r.push(GenerationMode::ControlNetDepth);
        r.push(GenerationMode::ControlNetCanny);
        assert(r@ =~= GenerationMode::every());
        r
    }

    /// The name of the workflow template that the mode goes by.
    pub fn workflow_name(&self) -> (r: &'static str)
        ensures
            r@ == (match self {
                GenerationMode::Img2Img => "img2img_sdxl.json"@,
                GenerationMode::ControlNetDepth => "controlnet_depth.json"@,
                GenerationMode::ControlNetCanny => "controlnet_canny.json"@,
            }),
    {
        match self {
            GenerationMode::Img2Img => "img2img_sdxl.json",
            GenerationMode::ControlNetDepth => "controlnet_depth.json",
            GenerationMode::ControlNetCanny => "controlnet_canny.json",
        }
    }
}

/// The field of the form that has the focus.
#[derive(Debug, Clone, Copy, PartialEq, Eq, Structural)]
pub enum FormFocus {
    Mode,
    Size,
    Prompt,
    Model,
    Generate,
}

impl FormFocus {
    /// The field after this one: mode, size, model, prompt, the button, and
    /// round again.
    pub open spec fn following(self) -> FormFocus {
        match self {
            FormFocus::Mode => FormFocus::Size,
            FormFocus::Size => FormFocus::Model,
            FormFocus::Model => FormFocus::Prompt,
            FormFocus::Prompt => FormFocus::Generate,
            FormFocus::Generate => FormFocus::Mode,
        }
    }

    /// The field before this one.
    pub open spec fn preceding(self) -> FormFocus {
        match self {
            FormFocus::Mode => FormFocus::Generate,
            FormFocus::Size => FormFocus::Mode,
            FormFocus::Model => FormFocus::Size,
            FormFocus::Prompt => FormFocus::Model,
            FormFocus::Generate => FormFocus::Prompt,
        }
    }
}

/// Going to the next field and back, or back and on, leads to the same
/// field.
pub proof fn law_fields_go_round(focus: FormFocus)
    ensures
        focus.following().preceding() == focus,
        focus.preceding().following() == focus,
{
}

/// The position that cycling leads to from `index` in a list of `len`
/// entries: one on or one back, going round.
pub open spec fn cycled(index: usize, len: nat, forward: bool) -> nat {
    if forward {
        ((index + 1) % (len as int)) as nat
    } else {
        ((index + len - 1) % (len as int)) as nat
    }
}

/// The position that cycling leads to.
pub fn cycle_index(index: usize, len: usize, forward: bool) -> (r: usize)
    requires
        len > 0,
    ensures
        r == cycled(index, len as nat, forward),
        r < len,
{
    let at: usize = index % len;
    proof {
        vstd::arithmetic::div_mod::lemma_fundamental_div_mod(index as int, len as int);
        let q = index as int / len as int;
        if forward {
            vstd::arithmetic::div_mod::lemma_mod_multiples_vanish(q, at + 1, len as int);
            assert(len as int * q + (at + 1) == index + 1);
            if at + 1 < len {
                vstd::arithmetic::div_mod::lemma_small_mod((at + 1) as nat, len as nat);
            } else {
                vstd::arithmetic::div_mod::lemma_mod_self_0(len as int);
            }
        } else {
            vstd::arithmetic::div_mod::lemma_mod_multiples_vanish(q, at + len - 1, len as int);
            assert(len as int * q + (at + len - 1) == index + len - 1);
            if at >= 1 {
                vstd::arithmetic::div_mod::lemma_mod_multiples_vanish(1, at - 1, len as int);
                vstd::arithmetic::div_mod::lemma_small_mod((at - 1) as nat, len as nat);
            } else {
                vstd::arithmetic::div_mod::lemma_small_mod((len - 1) as nat, len as nat);
            }
        }
    }
    if forward {
        if at + 1 < len {
            at + 1
        } else {
            0
        }
    } else {
        if at >= 1 {
            at - 1
        } else {
            len - 1
        }
    }
}

/// What is handed to the generation server for one image: the parameters
/// that fill the placeholders of the workflow template, and the mode that
/// says which template.
#[derive(Debug, Clone, PartialEq, Eq)]
pub struct GenerationOrder {
    pub mode: GenerationMode,
    pub params: Vec<(String, String)>,
}

/// What the form asks its caller to do after a key.
#[derive(Debug, Clone, PartialEq, Eq)]
pub enum GeneratorAction {
    /// Nothing.
    Nothing,
    /// Interrupt the generation under way.
    Interrupt,
    /// Generate an image.
    Generate(GenerationOrder),
}

/// Generator screen state.
#[derive(Debug, Clone, PartialEq, Eq)]
pub struct GeneratorScreen {
    pub focus: FormFocus,
    pub mode: GenerationMode,
    pub mode_idx: usize,
    pub size: SizePreset,
    pub size_idx: usize,
    pub prompt: String,
    pub model: String,
    pub available_models: Vec<String>,
    pub model_idx: usize,
    /// The path of the reference image.
    pub reference_image: Option<String>,
    pub generating: bool,
    pub progress: Option<GenerationProgress>,
    pub result_path: Option<String>,
    pub error: Option<String>,
}

impl GeneratorScreen {
    /// The parameters of an order: width, height, prompt, model and
    /// reference image.
    pub open spec fn order_params(self) -> Seq<(Seq<char>, Seq<char>)> {
        seq![
            ("width"@, decimal(self.size.size().0 as nat)),
            ("height"@, decimal(self.size.size().1 as nat)),
            ("prompt"@, self.prompt@),
            ("model"@, self.model@),
            (
                "image"@,
                match self.reference_image {
                    Some(path) => path@,
                    None => Seq::empty(),
                },
            ),
        ]
    }

    /// The form after cycling through the choices of the field that has the
    /// focus. Only the mode, the size and the model have choices, and the
    /// model only while models are known.
    pub open spec fn after_cycle(self, forward: bool) -> GeneratorScreen {
        match self.focus {
            FormFocus::Mode => {
                let at = cycled(self.mode_idx, 3, forward);
                GeneratorScreen {
                    mode_idx: at as usize,
                    mode: GenerationMode::every()[at as int],
                    ..self
                }
            },
            FormFocus::Size => {
                let at = cycled(self.size_idx, 5, forward);
                GeneratorScreen {
                    size_idx: at as usize,
                    size: SizePreset::named()[at as int],
                    ..self
                }
            },
            FormFocus::Model => if self.available_models@.len() > 0 {
                let at = cycled(self.model_idx, self.available_models@.len(), forward);
                GeneratorScreen {
                    model_idx: at as usize,
                    model: self.available_models@[at as int],
                    ..self
                }
            } else {
                self
            },
            _ => self,
        }
    }

    /// A form with the first mode, the widest size and the first of two
    /// models chosen, the focus on the mode, and nothing under way.
    pub fn new() -> (r: GeneratorScreen)
        ensures
            r.focus == FormFocus::Mode,
            r.mode == GenerationMode::Img2Img,
            r.mode_idx == 0,
            r.size == SizePreset::Ultrawide,
            r.size_idx == 4,
            r.prompt@.len() == 0,
            r.model@ == "sdxl"@,
            r.available_models@.len() == 2,
            r.available_models@[0]@ == "sdxl"@,
            r.available_models@[1]@ == "flux"@,
            r.model_idx == 0,
            r.reference_image is None,
            !r.generating,
            r.progress is None,
            r.result_path is None,
            r.error is None,
    {
        let mut available_models: Vec<String> = Vec::new();
        available_models.push(String::from_str("sdxl"));
        available_models.push(String::from_str("flux"));
        GeneratorScreen {
            focus: FormFocus::Mode,
            mode: GenerationMode::Img2Img,
            mode_idx: 0,
            size: SizePreset::Ultrawide,
            size_idx: 4,
            prompt: String::new(),
            model: String::from_str("sdxl"),
            available_models,
            model_idx: 0,
            reference_image: None,
            generating: false,
            progress: None,
            result_path: None,
            error: None,
        }
    }

    /// Sets the reference image, which comes from the browser.
    pub fn set_reference_image(&mut self, path: String)
        ensures
            *final(self) == (GeneratorScreen { reference_image: Some(path), ..*old(self) }),
    {
        self.reference_image = Some(path);
    }

    /// Takes in the models that the generation server offers, if it could
    /// be asked: a list that is not empty takes the place of the known
    /// models, and its first model is chosen.
    pub fn load_models(&mut self, models: Option<Vec<String>>)
        ensures
            *final(self) == (match models {
                Some(list) => if list@.len() > 0 {
                    GeneratorScreen {
                        available_models: list,
                        model_idx: 0,
                        model: list@[0],
                        ..*old(self)
                    }
                } else {
                    *old(self)
                },
                None => *old(self),
            }),
    {
        if let Some(list) = models {
            if list.len() > 0 {
                self.model = list[0].clone();
                self.model_idx = 0;
                self.available_models = list;
            }
        }
    }

    /// Starts a generation. Without a reference image that is shown as an
    /// error and nothing is ordered. With one, progress is shown as just
    /// begun and the order is handed back.
    pub fn start_generation(&mut self) -> (r: Option<GenerationOrder>)
        ensures
            final(self).focus == old(self).focus,
            final(self).mode == old(self).mode,
            final(self).mode_idx == old(self).mode_idx,
            final(self).size == old(self).size,
            final(self).size_idx == old(self).size_idx,
            final(self).prompt == old(self).prompt,
            final(self).model == old(self).model,
            final(self).available_models == old(self).available_models,
            final(self).model_idx == old(self).model_idx,
            final(self).reference_image == old(self).reference_image,
            final(self).result_path == old(self).result_path,
            final(self).generating == old(self).generating,
            match old(self).reference_image {
                None => r is None && final(self).progress == old(self).progress
                    && (final(self).error matches Some(e) && e@
                    == "No reference image selected"@),
                Some(_) => final(self).error is None && (final(self).progress matches Some(p)
                    && p.status@ == "Starting..."@ && p.progress == (Fraction { num: 0, den: 1 })
                    && p.current_step == 0 && p.total_steps == 0 && p.node_id is None) && (
                r matches Some(order) && order.mode == old(self).mode && pair_views(
                    order.params@,
                ) == old(self).order_params()),
            },
    {
        let image = match &self.reference_image {
            Some(path) => path.clone(),
            None => {
                self.error = Some(String::from_str("No reference image selected"));
                return None;
            },
        };
        self.error = None;
        self.progress = Some(GenerationProgress::from_event(&ProgressEvent::Queued));
        let (width, height) = self.size.dimensions();
        let mut params: Vec<(String, String)> = Vec::new();
        params.push((String::from_str("width"), decimal_string(width as u64)));
        params.push((String::from_str("height"), decimal_string(height as u64)));
        params.push((String::from_str("prompt"), self.prompt.clone()));
        params.push((String::from_str("model"), self.model.clone()));
        params.push((String::from_str("image"), image));
        assert(pair_views(params@) =~= old(self).order_params());
        Some(GenerationOrder { mode: self.mode, params })
    }

    /// Moves the focus to the next field.
    pub fn next_field(&mut self)
        ensures
            *final(self) == (GeneratorScreen { focus: old(self).focus.following(), ..*old(self) }),
    {
        self.focus = match self.focus {
            FormFocus::Mode => FormFocus::Size,
            FormFocus::Size => FormFocus::Model,
            FormFocus::Model => FormFocus::Prompt,
            FormFocus::Prompt => FormFocus::Generate,
            FormFocus::Generate => FormFocus::Mode,
        };
    }

    /// Moves the focus to the previous field.
    pub fn prev_field(&mut self)
        ensures
            *final(self) == (GeneratorScreen { focus: old(self).focus.preceding(), ..*old(self) }),
    {
        self.focus = match self.focus {
            FormFocus::Mode => FormFocus::Generate,
            FormFocus::Size => FormFocus::Mode,
            FormFocus::Model => FormFocus::Size,
            FormFocus::Prompt => FormFocus::Model,
            FormFocus::Generate => FormFocus::Prompt,
        };
    }

    /// Cycles through the choices of the field that has the focus.
    pub fn cycle_selection(&mut self, forward: bool)
        ensures
            *final(self) == old(self).after_cycle(forward),
    {
        match self.focus {
            FormFocus::Mode => {
                let modes = GenerationMode::all();
                self.mode_idx = cycle_index(self.mode_idx, modes.len(), forward);
                self.mode = modes[self.mode_idx];
            },
            FormFocus::Size => {
                let sizes = SizePreset::all();
                self.size_idx = cycle_index(self.size_idx, sizes.len(), forward);
                self.size = sizes[self.size_idx];
            },
            FormFocus::Model => {
                if self.available_models.len() > 0 {
                    self.model_idx = cycle_index(
                        self.model_idx,
                        self.available_models.len(),
                        forward,
                    );
                    self.model = self.available_models[self.model_idx].clone();
                }
            },
            _ => {},
        }
    }

    /// Takes in a key. While a generation is under way only Esc does
    /// anything: it asks for an interrupt. Otherwise Tab and the down
    /// arrow move the focus on, BackTab and the up arrow move it back, the
    /// left and right arrows cycle through the choices, Enter starts the
    /// generation on the button and moves on elsewhere, and in the prompt
    /// field characters are typed and Backspace takes the last one away.
    pub fn handle_key(&mut self, key: KeyPress) -> (r: GeneratorAction)
        ensures
            old(self).generating ==> (if key.key == Key::Esc {
                r == GeneratorAction::Interrupt && *final(self) == (GeneratorScreen {
                    generating: false,
                    ..*old(self)
                })
            } else {
                r == GeneratorAction::Nothing && *final(self) == *old(self)
            }),
            !old(self).generating ==> (match key.key {
                Key::Tab | Key::Down => r == GeneratorAction::Nothing && *final(self)
                    == (GeneratorScreen { focus: old(self).focus.following(), ..*old(self) }),
                Key::BackTab | Key::Up => r == GeneratorAction::Nothing && *final(self)
                    == (GeneratorScreen { focus: old(self).focus.preceding(), ..*old(self) }),
                Key::Left => r == GeneratorAction::Nothing && *final(self)
                    == old(self).after_cycle(false),
                Key::Right => r == GeneratorAction::Nothing && *final(self)
                    == old(self).after_cycle(true),
                Key::Enter => if old(self).focus == FormFocus::Generate {
                    match old(self).reference_image {
                        Some(_) => (r matches GeneratorAction::Generate(order) && order.mode
                            == old(self).mode && pair_views(order.params@)
                            == old(self).order_params()) && *final(self) == (GeneratorScreen {
                            error: None,
                            progress: final(self).progress,
                            ..*old(self)
                        }),
                        None => r == GeneratorAction::Nothing && *final(self) == (GeneratorScreen {
                            error: final(self).error,
                            ..*old(self)
                        }) && (final(self).error matches Some(e) && e@
                            == "No reference image selected"@),
                    }
                } else {
                    r == GeneratorAction::Nothing && *final(self) == (GeneratorScreen {
                        focus: old(self).focus.following(),
                        ..*old(self)
                    })
                },
                Key::Char(c) => r == GeneratorAction::Nothing && *final(self) == (GeneratorScreen {
                    prompt: final(self).prompt,
                    ..*old(self)
                }) && final(self).prompt@ == (if old(self).focus == FormFocus::Prompt {
                    old(self).prompt@.push(c)
                } else {
                    old(self).prompt@
                }),
                Key::Backspace => r == GeneratorAction::Nothing && *final(self)
                    == (GeneratorScreen { prompt: final(self).prompt, ..*old(self) })
                    && final(self).prompt@ == (if old(self).focus == FormFocus::Prompt
                    && old(self).prompt@.len() > 0 {
                    old(self).prompt@.drop_last()
                } else {
                    old(self).prompt@
                }),
                _ => r == GeneratorAction::Nothing && *final(self) == *old(self),
            }),
    {
        if self.generating {
            if key.key == Key::Esc {
                self.generating = false;
                return GeneratorAction::Interrupt;
            }
            return GeneratorAction::Nothing;
        }
        match key.key {
            Key::Tab | Key::Down => {
                self.next_field();
                GeneratorAction::Nothing
            },
            Key::BackTab | Key::Up => {
                self.prev_field();
                GeneratorAction::Nothing
            },
            Key::Left => {
                self.cycle_selection(false);
                GeneratorAction::Nothing
            },
            Key::Right => {
                self.cycle_selection(true);
                GeneratorAction::Nothing
            },
            Key::Enter => {
                if self.focus == FormFocus::Generate {
                    match self.start_generation() {
                        Some(order) => GeneratorAction::Generate(order),
                        None => GeneratorAction::Nothing,
                    }
                } else {
                    self.next_field();
                    GeneratorAction::Nothing
                }
            },
            Key::Char(c) => {
                if self.focus == FormFocus::Prompt {
                    push_char(&mut self.prompt, c);
                }
                GeneratorAction::Nothing
            },
            Key::Backspace => {
                if self.focus == FormFocus::Prompt {
                    let _ = pop_char(&mut self.prompt);
                }
                GeneratorAction::Nothing
            },
            _ => GeneratorAction::Nothing,
        }
    }
}

} // verus!
