//! The state of the controls, and what passes between them and the viewer.

use crate::camera::Mode;
use crate::color::BackgroundColor;
use crate::geometry::Point2DI;
use crate::options::Options;
use vstd::prelude::*;

verus! {

/// Where the pointer is, and how far it moved since it was last seen.
#[derive(Clone, Copy, Debug, PartialEq, Eq, Structural)]
pub struct MousePosition {
    pub absolute: Point2DI,
    pub relative: Point2DI,
}

/// An event that the controls get to see.
#[derive(Clone, Copy, Debug, PartialEq, Eq, Structural)]
pub enum UIEvent {
    MouseDown(MousePosition),
    MouseDragged(MousePosition),
}

/// What the controls ask of the viewer after an update.
#[derive(Debug)]
pub enum UIAction {
    Nothing,
    /// A setting changed that the scene has to be built again for.
    ModelChanged,
    /// Save the next frame under the given path.
    TakeScreenshot(String),
    ZoomIn,
    ZoomOut,
    /// Turn the page to the angle that the controls show. The angle stays
    /// with the host.
    Rotate,
}

/// The settings that the user changes through the controls.
#[derive(Clone, Copy, Debug, PartialEq, Eq, Structural)]
pub struct UISettings {
    pub mode: Mode,
    pub background_color: BackgroundColor,
    pub gamma_correction_effect_enabled: bool,
    pub stem_darkening_effect_enabled: bool,
    pub subpixel_aa_effect_enabled: bool,
}

/// The state of the controls.
#[derive(Debug)]
pub struct DemoUI {
    pub mode: Mode,
    pub background_color: BackgroundColor,
    pub gamma_correction_effect_enabled: bool,
    pub stem_darkening_effect_enabled: bool,
    pub subpixel_aa_effect_enabled: bool,
    /// The notice on display; empty where there is none.
    pub message: String,
    /// Whether the controls for text effects are offered.
    pub show_text_effects: bool,
}

/// The state of the controls as values.
pub struct DemoUIView {
    pub mode: Mode,
    pub background_color: BackgroundColor,
    pub gamma_correction_effect_enabled: bool,
    pub stem_darkening_effect_enabled: bool,
    pub subpixel_aa_effect_enabled: bool,
    pub message: Seq<char>,
    pub show_text_effects: bool,
}

impl View for DemoUI {
    type V = DemoUIView;

    open spec fn view(&self) -> DemoUIView {
        DemoUIView {
            mode: self.mode,
            background_color: self.background_color,
            gamma_correction_effect_enabled: self.gamma_correction_effect_enabled,
            stem_darkening_effect_enabled: self.stem_darkening_effect_enabled,
            subpixel_aa_effect_enabled: self.subpixel_aa_effect_enabled,
            message: self.message@,
            show_text_effects: self.show_text_effects,
        }
    }
}

impl DemoUIView {
    /// The controls of a viewer that starts with `options`: no effect is
    /// switched on and no notice is shown.
    pub open spec fn initial(mode: Mode, background_color: BackgroundColor) -> DemoUIView {
        DemoUIView {
            mode,
            background_color,
            gamma_correction_effect_enabled: false,
            stem_darkening_effect_enabled: false,
            subpixel_aa_effect_enabled: false,
            message: Seq::empty(),
            show_text_effects: true,
        }
    }

    /// The settings among the state.
    pub open spec fn settings(self) -> UISettings {
        UISettings {
            mode: self.mode,
            background_color: self.background_color,
            gamma_correction_effect_enabled: self.gamma_correction_effect_enabled,
            stem_darkening_effect_enabled: self.stem_darkening_effect_enabled,
            subpixel_aa_effect_enabled: self.subpixel_aa_effect_enabled,
        }
    }

    /// The state after the user set the controls to `settings`.
    pub open spec fn with_settings(self, settings: UISettings) -> DemoUIView {
        DemoUIView {
            mode: settings.mode,
            background_color: settings.background_color,
            gamma_correction_effect_enabled: settings.gamma_correction_effect_enabled,
            stem_darkening_effect_enabled: settings.stem_darkening_effect_enabled,
            subpixel_aa_effect_enabled: settings.subpixel_aa_effect_enabled,
            ..self
        }
    }
}

impl DemoUI {
    pub fn new(options: &Options) -> (ui: DemoUI)
        ensures
            ui@ == DemoUIView::initial(options.mode, options.background_color),
    {
        DemoUI {
            mode: options.mode,
            background_color: options.background_color,
            gamma_correction_effect_enabled: false,
            stem_darkening_effect_enabled: false,
            subpixel_aa_effect_enabled: false,
            message: String::new(),
            show_text_effects: true,
        }
    }

    pub fn settings(&self) -> (settings: UISettings)
        ensures
            settings == self@.settings(),
    {
        UISettings {
            mode: self.mode,
            background_color: self.background_color,
            gamma_correction_effect_enabled: self.gamma_correction_effect_enabled,
            stem_darkening_effect_enabled: self.stem_darkening_effect_enabled,
            subpixel_aa_effect_enabled: self.subpixel_aa_effect_enabled,
        }
    }

    /// Takes over what the user set.
    pub fn apply_settings(&mut self, settings: UISettings)
        ensures
            final(self)@ == old(self)@.with_settings(settings),
    {
        self.mode = settings.mode;
        self.background_color = settings.background_color;
        self.gamma_correction_effect_enabled = settings.gamma_correction_effect_enabled;
        self.stem_darkening_effect_enabled = settings.stem_darkening_effect_enabled;
        self.subpixel_aa_effect_enabled = settings.subpixel_aa_effect_enabled;
    }
}

} // verus!
