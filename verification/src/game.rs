//! The plugin: what it sets up at start, and what it asks of the engine on
//! each frame and on each event of the window.
//!
//! The plugin owns no engine object. The caller performs what a plan asks for
//! and reports what the engine answered.

use crate::handle::Handle;
use crate::ui::{command_views, resize_commands, OverlayLayout, UiCommand, UiCommandView};
use vstd::prelude::*;

verus! {

/// How imported textures are compressed.
#[derive(Clone, Copy, Debug, PartialEq, Eq, Structural)]
pub enum Compression {
    NoCompression,
    Speed,
    Quality,
}

/// The options under which the engine imports textures.
#[derive(Clone, Copy, Debug, PartialEq, Eq, Structural)]
pub struct TextureImport {
    pub anisotropy: u32,
    pub compression: Compression,
}

/// One of the renderer's ready-made sets of quality settings.
#[derive(Clone, Copy, Debug, PartialEq, Eq, Structural)]
pub enum QualityPreset {
    Low,
    Medium,
    High,
    Ultra,
}

/// The renderer's settings: a preset, and the two shadow distances that
/// replace the preset's own.
#[derive(Clone, Copy, Debug, PartialEq, Eq, Structural)]
pub struct RenderQuality {
    pub preset: QualityPreset,
    pub point_shadows_distance: u32,
    pub spot_shadows_distance: u32,
}

/// What has to be done before the plugin exists.
#[derive(Clone, Debug, PartialEq, Eq)]
pub struct StartupPlan {
    pub texture_import: TextureImport,
    /// The scene to load in the background, if any.
    pub scene_path: Option<String>,
    pub overlay: OverlayLayout,
}

/// The widgets of the overlay that the plugin talks to.
#[derive(Clone, Copy, Debug, PartialEq, Eq, Structural)]
pub struct OverlayWidgets {
    pub progress_bar: Handle,
    pub overlay_grid: Handle,
    pub debug_text: Handle,
}

/// What the scene loader had to say when it was asked.
#[derive(Clone, Debug, PartialEq, Eq)]
pub enum LoadOutcome {
    /// Nothing yet, or nothing any more.
    Pending,
    /// The scene was loaded and added to the engine under this handle.
    Loaded(Handle),
    /// Loading failed, for this reason.
    Failed(String),
}

/// The mathematical content of a [`LoadOutcome`].
pub enum LoadOutcomeView {
    Pending,
    Loaded(Handle),
    Failed(Seq<char>),
}

impl View for LoadOutcome {
    type V = LoadOutcomeView;

    open spec fn view(&self) -> LoadOutcomeView {
        match *self {
            LoadOutcome::Pending => LoadOutcomeView::Pending,
            LoadOutcome::Loaded(scene) => LoadOutcomeView::Loaded(scene),
            LoadOutcome::Failed(reason) => LoadOutcomeView::Failed(reason@),
        }
    }
}

/// An event of the operating system, as far as the plugin cares.
#[derive(Clone, Copy, Debug, PartialEq, Eq, Structural)]
pub enum OsEvent {
    WindowResized { width: u32, height: u32 },
    Other,
}

/// What one frame asks of the engine.
#[derive(Clone, Debug, PartialEq, Eq)]
pub struct FramePlan {
    /// Messages for the user interface, in the order in which they are sent.
    pub commands: Vec<UiCommand>,
    /// An error to write to the log.
    pub error: Option<String>,
}

/// What the plugin asks for once the graphics context exists.
#[derive(Clone, Debug, PartialEq, Eq)]
pub struct GraphicsPlan {
    pub quality: RenderQuality,
    pub commands: Vec<UiCommand>,
}

/// The characters of a text that may be absent.
pub open spec fn text_view(text: Option<String>) -> Option<Seq<char>> {
    match text {
        Some(t) => Some(t@),
        None => None,
    }
}

/// The path of the scene that the game starts with.
pub open spec fn scene_path() -> Seq<char> {
    "data/scene.rgs"@
}

/// The plugin's state.
#[derive(Clone, Copy, Debug, PartialEq, Eq, Structural)]
pub struct Game {
    /// The scene that is played; the empty handle until one is there.
    pub scene: Handle,
    /// Whether a background load was started for this plugin.
    pub has_loader: bool,
    pub progress_bar: Handle,
    pub overlay_grid: Handle,
    pub debug_text: Handle,
}

impl Game {
    /// A load is started exactly when the engine brings no scene of its own.
    pub open spec fn spec_scene_request(override_scene: Handle) -> Option<Seq<char>> {
        if override_scene.spec_is_some() {
            None
        } else {
            Some(scene_path())
        }
    }

    pub open spec fn spec_new(override_scene: Handle, widgets: OverlayWidgets) -> Game {
        Game {
            scene: override_scene,
            has_loader: override_scene.spec_is_none(),
            progress_bar: widgets.progress_bar,
            overlay_grid: widgets.overlay_grid,
            debug_text: widgets.debug_text,
        }
    }

    /// Whether this outcome brings the plugin a scene: only a plugin that
    /// started a load listens to the loader.
    pub open spec fn accepts(self, outcome: LoadOutcomeView) -> bool {
        self.has_loader && outcome is Loaded
    }

    /// The state after a frame on which the loader reported `outcome`.
    pub open spec fn spec_after_frame(self, outcome: LoadOutcomeView) -> Game {
        if self.accepts(outcome) {
            Game { scene: outcome->Loaded_0, ..self }
        } else {
            self
        }
    }

    /// The messages of a frame: the overlay is hidden when a scene arrives,
    /// the progress bar is set on every frame, and the statistics are shown
    /// whenever there are any.
    pub open spec fn spec_frame_commands(
        self,
        outcome: LoadOutcomeView,
        progress_percent: usize,
        statistics: Option<Seq<char>>,
    ) -> Seq<UiCommandView> {
        let overlay = if self.accepts(outcome) {
            seq![UiCommandView::Visibility { widget: self.overlay_grid, visible: false }]
        } else {
            Seq::<UiCommandView>::empty()
        };
        let progress = seq![
            UiCommandView::Progress { widget: self.progress_bar, percent: progress_percent },
        ];
        let text = match statistics {
            Some(t) => seq![UiCommandView::Text { widget: self.debug_text, text: t }],
            None => Seq::<UiCommandView>::empty(),
        };
        overlay + progress + text
    }

    /// A failure is logged by a plugin that started a load, and by no other.
    pub open spec fn spec_frame_error(self, outcome: LoadOutcomeView) -> Option<Seq<char>> {
        if self.has_loader && outcome is Failed {
            Some(outcome->Failed_0)
        } else {
            None
        }
    }

    pub open spec fn spec_os_event_commands(self, event: OsEvent) -> Seq<UiCommandView> {
        match event {
            OsEvent::WindowResized { width, height } => resize_commands(
                self.overlay_grid,
                width,
                height,
            ),
            OsEvent::Other => Seq::<UiCommandView>::empty(),
        }
    }

    /// The settings of the renderer: the high preset, with shadows drawn up
    /// to 6 units from the camera.
    pub open spec fn spec_render_quality() -> RenderQuality {
        RenderQuality {
            preset: QualityPreset::High,
            point_shadows_distance: 6,
            spot_shadows_distance: 6,
        }
    }

    /// Says what to set up before the plugin is made: how textures are
    /// imported, which scene to load in the background, and the overlay to
    /// build.
    pub fn plan_startup(override_scene: Handle) -> (plan: StartupPlan)
        ensures
            plan.texture_import == (TextureImport {
                anisotropy: 1,
                compression: Compression::Quality,
            }),
            text_view(plan.scene_path) == Game::spec_scene_request(override_scene),
            plan.overlay.is_loading_overlay(),
            plan.overlay.well_formed(),
    {
        let scene_path = if override_scene.is_some() {
            None
        } else {
            Some("data/scene.rgs".to_owned())
        };
        StartupPlan {
            texture_import: TextureImport { anisotropy: 1, compression: Compression::Quality },
            scene_path,
            overlay: OverlayLayout::loading(),
        }
    }

    /// Makes the plugin, once the overlay is built. The plugin plays the
    /// engine's scene where there is one; else it waits for the loader.
    pub fn new(override_scene: Handle, widgets: OverlayWidgets) -> (game: Game)
        ensures
            game == Game::spec_new(override_scene, widgets),
    {
        let mut has_loader = false;
        let scene = if override_scene.is_some() {
            override_scene
        } else {
            has_loader = true;
            Handle::default()
        };
        Game {
            scene,
            has_loader,
            progress_bar: widgets.progress_bar,
            overlay_grid: widgets.overlay_grid,
            debug_text: widgets.debug_text,
        }
    }

    /// Fits the overlay to a window of the given size.
    pub fn handle_resize(&self, width: u32, height: u32) -> (commands: Vec<UiCommand>)
        ensures
            command_views(commands@) == resize_commands(self.overlay_grid, width, height),
    {
        let mut commands: Vec<UiCommand> = Vec::new();
        commands.push(UiCommand::Width { widget: self.overlay_grid, value: width });
        commands.push(UiCommand::Height { widget: self.overlay_grid, value: height });
        assert(command_views(commands@) =~= resize_commands(self.overlay_grid, width, height));
        commands
    }

    /// One frame. `outcome` is what the loader answered, `progress_percent`
    /// how much of the resources is loaded, and `statistics` the renderer's
    /// report where the graphics context exists.
    pub fn update(
        &mut self,
        outcome: LoadOutcome,
        progress_percent: usize,
        statistics: Option<String>,
    ) -> (plan: FramePlan)
        ensures
            *final(self) == old(self).spec_after_frame(outcome@),
            command_views(plan.commands@) == old(self).spec_frame_commands(
                outcome@,
                progress_percent,
                text_view(statistics),
            ),
            text_view(plan.error) == old(self).spec_frame_error(outcome@),
    {
        let mut commands: Vec<UiCommand> = Vec::new();
        let mut error: Option<String> = None;
        if self.has_loader {
            match outcome {
                LoadOutcome::Loaded(scene) => {
                    self.scene = scene;
                    commands.push(
                        UiCommand::Visibility { widget: self.overlay_grid, visible: false },
                    );
                },
                LoadOutcome::Failed(reason) => {
                    error = Some(reason);
                },
                LoadOutcome::Pending => {},
            }
        }
        commands.push(UiCommand::Progress { widget: self.progress_bar, percent: progress_percent });
        if let Some(text) = statistics {
            commands.push(UiCommand::Text { widget: self.debug_text, text });
        }
        assert(command_views(commands@) =~= old(self).spec_frame_commands(
            outcome@,
            progress_percent,
            text_view(statistics),
        ));
        FramePlan { commands, error }
    }

    /// An event of the operating system: the overlay follows the window when
    /// it is resized, and nothing else matters.
    pub fn on_os_event(&mut self, event: &OsEvent) -> (commands: Vec<UiCommand>)
        ensures
            *final(self) == *old(self),
            command_views(commands@) == old(self).spec_os_event_commands(*event),
    {
        match *event {
            OsEvent::WindowResized { width, height } => self.handle_resize(width, height),
            OsEvent::Other => {
                let commands: Vec<UiCommand> = Vec::new();
                assert(command_views(commands@) =~= Seq::<UiCommandView>::empty());
                commands
            },
        }
    }

    /// The graphics context exists: sets the renderer's quality and fits the
    /// overlay to the window, whose inner size is given.
    pub fn on_graphics_context_initialized(
        &mut self,
        inner_width: u32,
        inner_height: u32,
    ) -> (plan: GraphicsPlan)
        ensures
            *final(self) == *old(self),
            plan.quality == Game::spec_render_quality(),
            command_views(plan.commands@) == resize_commands(
                old(self).overlay_grid,
                inner_width,
                inner_height,
            ),
    {
        let quality = RenderQuality {
            preset: QualityPreset::High,
            point_shadows_distance: 6,
            spot_shadows_distance: 6,
        };
        let commands = self.handle_resize(inner_width, inner_height);
        GraphicsPlan { quality, commands }
    }
}

/// A plugin listens to the loader exactly when a scene was requested for it
/// at start.
pub proof fn lemma_loader_follows_request(override_scene: Handle, widgets: OverlayWidgets)
    ensures
        Game::spec_new(override_scene, widgets).has_loader
            <==> Game::spec_scene_request(override_scene) is Some,
{
}

/// A plugin that started no load is deaf to the loader: whatever the loader
/// is said to have answered, the frame leaves the plugin as it was, logs
/// nothing, and sends what a frame without news sends.
pub proof fn lemma_frame_without_loader(
    game: Game,
    outcome: LoadOutcomeView,
    progress_percent: usize,
    statistics: Option<Seq<char>>,
)
    requires
        !game.has_loader,
    ensures
        game.spec_after_frame(outcome) == game,
        game.spec_frame_error(outcome) is None,
        game.spec_frame_commands(outcome, progress_percent, statistics)
            == game.spec_frame_commands(LoadOutcomeView::Pending, progress_percent, statistics),
{
}

/// A frame never moves the plugin's widgets nor its loader: only the scene
/// can change, and only to the scene that the loader brought.
pub proof fn lemma_frame_keeps_widgets(game: Game, outcome: LoadOutcomeView)
    ensures
        game.spec_after_frame(outcome).has_loader == game.has_loader,
        game.spec_after_frame(outcome).progress_bar == game.progress_bar,
        game.spec_after_frame(outcome).overlay_grid == game.overlay_grid,
        game.spec_after_frame(outcome).debug_text == game.debug_text,
        game.spec_after_frame(outcome).scene != game.scene ==> outcome == LoadOutcomeView::Loaded(
            game.spec_after_frame(outcome).scene,
        ),
{
}

/// Makes the plugin when the engine asks for it.
#[derive(Clone, Copy, Debug, PartialEq, Eq, Structural)]
pub struct GameConstructor;

impl GameConstructor {
    /// The names of the scripts that the engine has to know before it reads
    /// a scene: the player's, and no other.
    pub fn register(&self) -> (names: Vec<String>)
        ensures
            names@.len() == 1,
            names@[0]@ == "Player"@,
    {
        let mut names: Vec<String> = Vec::new();
        names.push("Player".to_owned());
        names
    }

    pub fn create_instance(&self, override_scene: Handle, widgets: OverlayWidgets) -> (game: Game)
        ensures
            game == Game::spec_new(override_scene, widgets),
    {
        Game::new(override_scene, widgets)
    }
}

} // verus!
