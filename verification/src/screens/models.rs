//! The model manager.

use vstd::prelude::*;
use crate::screens::{position_after, position_before, step_back, step_on, Key, KeyPress};
use crate::services::chain;
use crate::services::ollama::{model_views, vision_among, vision_models, OllamaModel,
    PullProgress};
use crate::text::{decimal, pop_char, push_char, push_decimal};

verus! {

/// The tabs of the model manager.
#[derive(Debug, Clone, Copy, PartialEq, Eq, Structural)]
pub enum ModelTab {
    Ollama,
    ComfyUI,
}

/// What the model manager asks its caller to do after a key.
#[derive(Debug, Clone, PartialEq, Eq)]
pub enum ModelsAction {
    /// Nothing.
    Nothing,
    /// Load the models of the tab in front.
    Load,
    /// Download the model of the given name.
    Pull(String),
    /// Delete the model of the given name.
    Delete(String),
}

/// How loading the models of a tab went.
#[derive(Debug)]
pub enum LoadedModels {
    Ollama(Result<Vec<OllamaModel>, String>),
    ComfyUI(Result<Vec<String>, String>),
}

/// Models screen state.
#[derive(Debug, Clone, PartialEq, Eq)]
pub struct ModelsScreen {
    pub current_tab: ModelTab,
    pub ollama_models: Vec<OllamaModel>,
    pub comfyui_models: Vec<String>,
    /// The position of the selected model.
    pub selected: Option<usize>,
    pub loading: bool,
    pub error: Option<String>,
    pub pulling: bool,
    /// The name of the model that is being downloaded.
    pub pull_model: String,
    pub pull_progress: Option<PullProgress>,
    /// Whether the name of a model to download is being typed.
    pub input_mode: bool,
    pub input_buffer: String,
}

impl ModelsScreen {
    /// The number of models in the tab in front.
    pub open spec fn count(self) -> nat {
        match self.current_tab {
            ModelTab::Ollama => self.ollama_models@.len(),
            ModelTab::ComfyUI => self.comfyui_models@.len(),
        }
    }

    /// The name of the model to delete: the selected one, in the tab of the
    /// language models.
    pub open spec fn deletion(self) -> Option<String> {
        match (self.current_tab, self.selected) {
            (ModelTab::Ollama, Some(i)) => if i < self.ollama_models@.len() {
                Some(self.ollama_models@[i as int].name)
            } else {
                None
            },
            _ => None,
        }
    }

    /// The line that sums up the tab in front: the number of models, and for
    /// the language models how many of them take images.
    pub open spec fn summary(self) -> Seq<char> {
        match self.current_tab {
            ModelTab::Ollama => decimal(self.ollama_models@.len()) + " models ("@ + decimal(
                vision_among(model_views(self.ollama_models@)).len(),
            ) + " vision)"@,
            ModelTab::ComfyUI => decimal(self.comfyui_models@.len()) + " checkpoints"@,
        }
    }

    /// A model manager that knows no models, on the tab of the language
    /// models, with the first position selected.
    pub fn new() -> (r: ModelsScreen)
        ensures
            r.current_tab == ModelTab::Ollama,
            r.ollama_models@.len() == 0,
            r.comfyui_models@.len() == 0,
            r.selected == Some(0usize),
            !r.loading,
            r.error is None,
            !r.pulling,
            r.pull_model@.len() == 0,
            r.pull_progress is None,
            !r.input_mode,
            r.input_buffer@.len() == 0,
    {
        ModelsScreen {
            current_tab: ModelTab::Ollama,
            ollama_models: Vec::new(),
            comfyui_models: Vec::new(),
            selected: Some(0),
            loading: false,
            error: None,
            pulling: false,
            pull_model: String::new(),
            pull_progress: None,
            input_mode: false,
            input_buffer: String::new(),
        }
    }

    /// Begins to load the models of the tab in front: says which tab.
    pub fn load_models(&mut self) -> (r: ModelTab)
        ensures
            r == old(self).current_tab,
            *final(self) == (ModelsScreen { loading: true, error: None, ..*old(self) }),
    {
        self.loading = true;
        self.error = None;
        self.current_tab
    }

    /// Takes in how loading went: the models take the place of the list of
    /// their tab and the first is selected if there is one; a failure is
    /// shown.
    pub fn models_loaded(&mut self, outcome: LoadedModels)
        ensures
            match outcome {
                LoadedModels::Ollama(Ok(models)) => *final(self) == (ModelsScreen {
                    ollama_models: models,
                    selected: if models@.len() > 0 {
                        Some(0usize)
                    } else {
                        old(self).selected
                    },
                    loading: false,
                    ..*old(self)
                }),
                LoadedModels::ComfyUI(Ok(models)) => *final(self) == (ModelsScreen {
                    comfyui_models: models,
                    selected: if models@.len() > 0 {
                        Some(0usize)
                    } else {
                        old(self).selected
                    },
                    loading: false,
                    ..*old(self)
                }),
                LoadedModels::Ollama(Err(reason)) => *final(self) == (ModelsScreen {
                    error: final(self).error,
                    loading: false,
                    ..*old(self)
                }) && (final(self).error matches Some(e) && e@ == "Failed to load Ollama models: "@
                    + reason@),
                LoadedModels::ComfyUI(Err(reason)) => *final(self) == (ModelsScreen {
                    error: final(self).error,
                    loading: false,
                    ..*old(self)
                }) && (final(self).error matches Some(e) && e@
                    == "Failed to load ComfyUI models: "@ + reason@),
            },
    {
        match outcome {
            LoadedModels::Ollama(Ok(models)) => {
                self.ollama_models = models;
                if self.ollama_models.len() > 0 {
                    self.selected = Some(0);
                }
            },
            LoadedModels::ComfyUI(Ok(models)) => {
                self.comfyui_models = models;
                if self.comfyui_models.len() > 0 {
                    self.selected = Some(0);
                }
            },
            LoadedModels::Ollama(Err(reason)) => {
                self.error = Some(chain("Failed to load Ollama models: ", reason.as_str()));
            },
            LoadedModels::ComfyUI(Err(reason)) => {
                self.error = Some(chain("Failed to load ComfyUI models: ", reason.as_str()));
            },
        }
        self.loading = false;
    }

    /// Begins the download of a model.
    pub fn pull_model(&mut self, model_name: &str)
        ensures
            *final(self) == (ModelsScreen {
                pulling: true,
                pull_model: final(self).pull_model,
                error: None,
                ..*old(self)
            }),
            final(self).pull_model@ == model_name@,
    {
        self.pulling = true;
        self.pull_model = String::from_str(model_name);
        self.error = None;
    }

    /// Takes in whether the download could be begun: if so its progress is
    /// shown as just begun, and if not the failure is shown and the download
    /// is over.
    pub fn pull_started(&mut self, failure: Option<&str>)
        ensures
            match failure {
                None => *final(self) == (ModelsScreen {
                    pull_progress: final(self).pull_progress,
                    ..*old(self)
                }) && (final(self).pull_progress matches Some(p) && p.status@
                    == "Starting download..."@ && p.digest is None && p.total is None
                    && p.completed is None),
                Some(reason) => *final(self) == (ModelsScreen {
                    error: final(self).error,
                    pulling: false,
                    ..*old(self)
                }) && (final(self).error matches Some(e) && e@ == "Failed to pull model: "@
                    + reason@),
            },
    {
        match failure {
            None => {
                self.pull_progress = Some(
                    PullProgress {
                        status: String::from_str("Starting download..."),
                        digest: None,
                        total: None,
                        completed: None,
                    },
                );
            },
            Some(reason) => {
                self.error = Some(chain("Failed to pull model: ", reason));
                self.pulling = false;
            },
        }
    }

    /// The name of the model to delete, if one is selected in the tab of
    /// the language models.
    pub fn delete_selected(&self) -> (r: Option<String>)
        ensures
            r == self.deletion(),
    {
        match self.current_tab {
            ModelTab::Ollama => match self.selected {
                Some(i) => if i < self.ollama_models.len() {
                    Some(self.ollama_models[i].name.clone())
                } else {
                    None
                },
                None => None,
            },
            ModelTab::ComfyUI => None,
        }
    }

    /// Takes in why a deletion failed, and shows it.
    pub fn delete_failed(&mut self, reason: &str)
        ensures
            *final(self) == (ModelsScreen { error: final(self).error, ..*old(self) }),
            final(self).error matches Some(e) && e@ == "Failed to delete model: "@ + reason@,
    {
        self.error = Some(chain("Failed to delete model: ", reason));
    }

    /// The number of models in the tab in front.
    pub fn model_count(&self) -> (r: usize)
        ensures
            r == self.count(),
    {
        match self.current_tab {
            ModelTab::Ollama => self.ollama_models.len(),
            ModelTab::ComfyUI => self.comfyui_models.len(),
        }
    }

    /// Moves the selection up, going round; nothing moves in an empty tab.
    pub fn previous(&mut self)
        ensures
            *final(self) == (ModelsScreen {
                selected: if old(self).count() == 0 {
                    old(self).selected
                } else {
                    Some(position_before(old(self).selected, old(self).count()) as usize)
                },
                ..*old(self)
            }),
    {
        let count = self.model_count();
        if count == 0 {
            return ;
        }
        self.selected = Some(step_back(self.selected, count));
    }

    /// Moves the selection down, going round; nothing moves in an empty tab.
    pub fn next(&mut self)
        ensures
            *final(self) == (ModelsScreen {
                selected: if old(self).count() == 0 {
                    old(self).selected
                } else {
                    Some(position_after(old(self).selected, old(self).count()) as usize)
                },
                ..*old(self)
            }),
    {
        let count = self.model_count();
        if count == 0 {
            return ;
        }
        self.selected = Some(step_on(self.selected, count));
    }

    /// Brings the other tab to the front and selects its first position.
    pub fn switch_tab(&mut self)
        ensures
            *final(self) == (ModelsScreen {
                current_tab: match old(self).current_tab {
                    ModelTab::Ollama => ModelTab::ComfyUI,
                    ModelTab::ComfyUI => ModelTab::Ollama,
                },
                selected: Some(0usize),
                ..*old(self)
            }),
    {
        self.current_tab = match self.current_tab {
            ModelTab::Ollama => ModelTab::ComfyUI,
            ModelTab::ComfyUI => ModelTab::Ollama,
        };
        self.selected = Some(0);
    }

    /// The line that sums up the tab in front.
    pub fn status_line(&self) -> (r: String)
        ensures
            r@ == self.summary(),
    {
        let mut r = String::new();
        match self.current_tab {
            ModelTab::Ollama => {
                let vision = vision_models(&self.ollama_models);
                push_decimal(&mut r, self.ollama_models.len() as u64);
                r.append(" models (");
                push_decimal(&mut r, vision.len() as u64);
                r.append(" vision)");
                assert(model_views(vision@).len() == vision@.len());
            },
            ModelTab::ComfyUI => {
                push_decimal(&mut r, self.comfyui_models.len() as u64);
                r.append(" checkpoints");
            },
        }
        assert(r@ =~= self.summary());
        r
    }

    /// Takes in a key. While a name is being typed, characters and
    /// Backspace edit it, Esc gives up, and Enter, with a name typed,
    /// begins its download. Otherwise Tab switches the tab, the arrows and
    /// `k`, `j` move the selection, `r` asks for the models to be loaded,
    /// `p` begins the typing of a name in the tab of the language models
    /// unless a download is under way, and `d` and Delete ask for the
    /// selected model to be deleted.
    pub fn handle_key(&mut self, key: KeyPress) -> (r: ModelsAction)
        ensures
            old(self).input_mode ==> (match key.key {
                Key::Enter => if old(self).input_buffer@.len() > 0 {
                    r == ModelsAction::Pull(old(self).input_buffer) && *final(self)
                        == (ModelsScreen {
                        input_buffer: final(self).input_buffer,
                        pull_model: old(self).input_buffer,
                        input_mode: false,
                        pulling: true,
                        error: None,
                        ..*old(self)
                    }) && final(self).input_buffer@.len() == 0
                } else {
                    r == ModelsAction::Nothing && *final(self) == *old(self)
                },
                Key::Esc => r == ModelsAction::Nothing && *final(self) == (ModelsScreen {
                    input_buffer: final(self).input_buffer,
                    input_mode: false,
                    ..*old(self)
                }) && final(self).input_buffer@.len() == 0,
                Key::Char(c) => r == ModelsAction::Nothing && *final(self) == (ModelsScreen {
                    input_buffer: final(self).input_buffer,
                    ..*old(self)
                }) && final(self).input_buffer@ == old(self).input_buffer@.push(c),
                Key::Backspace => r == ModelsAction::Nothing && *final(self) == (ModelsScreen {
                    input_buffer: final(self).input_buffer,
                    ..*old(self)
                }) && final(self).input_buffer@ == (if old(self).input_buffer@.len() > 0 {
                    old(self).input_buffer@.drop_last()
                } else {
                    old(self).input_buffer@
                }),
                _ => r == ModelsAction::Nothing && *final(self) == *old(self),
            }),
            !old(self).input_mode ==> (match key.key {
                Key::Tab => r == ModelsAction::Nothing && *final(self) == (ModelsScreen {
                    current_tab: match old(self).current_tab {
                        ModelTab::Ollama => ModelTab::ComfyUI,
                        ModelTab::ComfyUI => ModelTab::Ollama,
                    },
                    selected: Some(0usize),
                    ..*old(self)
                }),
                Key::Up | Key::Char('k') => r == ModelsAction::Nothing && *final(self)
                    == (ModelsScreen {
                    selected: if old(self).count() == 0 {
                        old(self).selected
                    } else {
                        Some(position_before(old(self).selected, old(self).count()) as usize)
                    },
                    ..*old(self)
                }),
                Key::Down | Key::Char('j') => r == ModelsAction::Nothing && *final(self)
                    == (ModelsScreen {
                    selected: if old(self).count() == 0 {
                        old(self).selected
                    } else {
                        Some(position_after(old(self).selected, old(self).count()) as usize)
                    },
                    ..*old(self)
                }),
                Key::Char('r') => r == ModelsAction::Load && *final(self) == *old(self),
                Key::Char('p') => r == ModelsAction::Nothing && *final(self) == (ModelsScreen {
                    input_mode: old(self).current_tab == ModelTab::Ollama && !old(self).pulling,
                    ..*old(self)
                }),
                Key::Char('d') | Key::Delete => *final(self) == *old(self) && r
                    == (match old(self).deletion() {
                    Some(name) => ModelsAction::Delete(name),
                    None => ModelsAction::Nothing,
                }),
                _ => r == ModelsAction::Nothing && *final(self) == *old(self),
            }),
    {
        if self.input_mode {
            match key.key {
                Key::Enter => {
                    if !self.input_buffer.as_str().is_empty() {
                        let name = self.input_buffer.clone();
                        self.input_buffer = String::new();
                        self.input_mode = false;
                        self.pulling = true;
                        self.pull_model = name.clone();
                        self.error = None;
                        return ModelsAction::Pull(name);
                    }
                },
                Key::Esc => {
                    self.input_buffer = String::new();
                    self.input_mode = false;
                },
                Key::Char(c) => {
                    push_char(&mut self.input_buffer, c);
                },
                Key::Backspace => {
                    let _ = pop_char(&mut self.input_buffer);
                },
                _ => {},
            }
            return ModelsAction::Nothing;
        }
        match key.key {
            Key::Tab => {
                self.switch_tab();
                ModelsAction::Nothing
            },
            Key::Up => {
                self.previous();
                ModelsAction::Nothing
            },
            Key::Down => {
                self.next();
                ModelsAction::Nothing
            },
            Key::Delete => match self.delete_selected() {
                Some(name) => ModelsAction::Delete(name),
                None => ModelsAction::Nothing,
            },
            Key::Char(c) => {
                if c == 'k' {
                    self.previous();
                    ModelsAction::Nothing
                } else if c == 'j' {
                    self.next();
                    ModelsAction::Nothing
                } else if c == 'r' {
                    ModelsAction::Load
                } else if c == 'p' {
                    if self.current_tab == ModelTab::Ollama && !self.pulling {
                        self.input_mode = true;
                    }
                    ModelsAction::Nothing
                } else if c == 'd' {
                    match self.delete_selected() {
                        Some(name) => ModelsAction::Delete(name),
                        None => ModelsAction::Nothing,
                    }
                } else {
                    ModelsAction::Nothing
                }
            },
            _ => ModelsAction::Nothing,
        }
    }
}

} // verus!
