//! The test option model: what one test case declares of how the content under
//! test is run and how its output is judged.

use crate::approximations::Approximations;
use crate::comparison::ImageComparison;
use crate::image_trigger::ImageTrigger;
use std::time::Duration;
use vstd::prelude::*;
use vstd::string::StringExecFns;

verus! {

/// Why a configuration is refused.
#[derive(Clone, Copy, Debug, PartialEq, Eq)]
pub enum ConfigError {
    /// More than one capture is set to this trigger, which only one may use.
    DuplicateTrigger { trigger: ImageTrigger },
    /// The output path ends in a slash.
    InvalidOutputPath,
}

impl ConfigError {
    /// The text that describes the error to a reader.
    pub open spec fn message_of(self) -> Seq<char> {
        match self {
            ConfigError::DuplicateTrigger { trigger } => "Multiple captures are set to trigger "@
                + trigger.name() + ". This likely isn't intended!"@,
            ConfigError::InvalidOutputPath => "The output path must not end in a slash."@,
        }
    }

    /// Writes the message of the error.
    pub fn message(&self) -> (message: String)
        ensures
            message@ == self.message_of(),
    {
        match self {
            ConfigError::DuplicateTrigger { trigger } => {
                let mut message: String = String::from_str("Multiple captures are set to trigger ");
                message.append(trigger.describe().as_str());
                message.append(". This likely isn't intended!");
                message
            },
            ConfigError::InvalidOutputPath => String::from_str(
                "The output path must not end in a slash.",
            ),
        }
    }
}

/// Capabilities that a test needs of the build that runs it.
#[derive(Clone, Copy, Debug, PartialEq, Eq)]
pub struct RequiredFeatures {
    pub lzma: bool,
    pub jpegxr: bool,
}

impl Default for RequiredFeatures {
    fn default() -> (features: RequiredFeatures)
        ensures
            features == (RequiredFeatures { lzma: false, jpegxr: false }),
    {
        RequiredFeatures { lzma: false, jpegxr: false }
    }
}

/// Capabilities that the build has.
#[derive(Clone, Copy, Debug, PartialEq, Eq)]
pub struct BuildFeatures {
    pub lzma: bool,
    pub jpegxr: bool,
}

impl RequiredFeatures {
    /// Whether a build with the given capabilities can run the test: it has
    /// every capability that the test requires.
    pub fn can_run(&self, build: &BuildFeatures) -> (runnable: bool)
        ensures
            runnable == ((self.lzma ==> build.lzma) && (self.jpegxr ==> build.jpegxr)),
    {
        (!self.lzma || build.lzma) && (!self.jpegxr || build.jpegxr)
    }
}

/// What a test asks of the renderer.
#[derive(Clone, Copy, Debug, PartialEq, Eq)]
pub struct RenderOptions {
    /// The test may run where no renderer meets these options.
    pub optional: bool,
    /// Number of samples per pixel.
    pub sample_count: u32,
}

impl Default for RenderOptions {
    fn default() -> (options: RenderOptions)
        ensures
            options == (RenderOptions { optional: false, sample_count: 1 }),
    {
        RenderOptions { optional: false, sample_count: 1 }
    }
}

/// Rendering quality of the stage.
#[derive(Clone, Copy, Debug, PartialEq, Eq)]
pub enum StageQuality {
    Low,
    Medium,
    High,
    High8x8,
    High16x16,
}

/// The quality that stands for a sample count.
pub open spec fn quality_of(sample_count: u32) -> StageQuality {
    if sample_count == 16 {
        StageQuality::High16x16
    } else if sample_count == 8 {
        StageQuality::High8x8
    } else if sample_count == 4 {
        StageQuality::High
    } else if sample_count == 2 {
        StageQuality::Medium
    } else {
        StageQuality::Low
    }
}

/// Maps a sample count to the quality of the stage.
pub fn stage_quality(sample_count: u32) -> (quality: StageQuality)
    ensures
        quality == quality_of(sample_count),
{
    match sample_count {
        16 => StageQuality::High16x16,
        8 => StageQuality::High8x8,
        4 => StageQuality::High,
        2 => StageQuality::Medium,
        _ => StageQuality::Low,
    }
}

/// The flavour of the runtime under test.
#[derive(Clone, Copy, Debug, PartialEq, Eq)]
pub enum PlayerRuntime {
    FlashPlayer,
    AIR,
}

impl Default for PlayerRuntime {
    fn default() -> (runtime: PlayerRuntime)
        ensures
            runtime == PlayerRuntime::FlashPlayer,
    {
        PlayerRuntime::FlashPlayer
    }
}

/// The mode in which the runtime executes.
#[derive(Clone, Copy, Debug, PartialEq, Eq)]
pub enum PlayerMode {
    Release,
    Debug,
}

/// Bit pattern of the scale factor 1.0.
pub const UNIT_SCALE_FACTOR: u64 = 0x3ff0_0000_0000_0000;

/// Size of the viewport in pixels, and the bit pattern of its scale factor.
#[derive(Clone, Copy, Debug, PartialEq, Eq)]
pub struct ViewportDimensions {
    pub width: u32,
    pub height: u32,
    pub scale_factor: u64,
}

/// What the builder of the runtime under test is handed.
#[derive(Clone, Copy, Debug, PartialEq, Eq)]
pub struct PlayerSetup {
    /// Longest time that the content may run in one go, if limited.
    pub max_execution_duration: Option<Duration>,
    /// Quality of the stage, where the test renders.
    pub quality: Option<StageQuality>,
    /// Attach an audio backend.
    pub with_audio: bool,
    /// Attach a video backend.
    pub with_video: bool,
    pub runtime: PlayerRuntime,
    pub mode: PlayerMode,
}

/// How the runtime under test is set up for a test.
#[derive(Clone, Copy, Debug, PartialEq, Eq)]
pub struct PlayerOptions {
    pub max_execution_duration: Option<Duration>,
    pub viewport_dimensions: Option<ViewportDimensions>,
    pub with_renderer: Option<RenderOptions>,
    pub with_audio: bool,
    pub with_video: bool,
    pub runtime: PlayerRuntime,
    pub mode: Option<PlayerMode>,
}

impl Default for PlayerOptions {
    fn default() -> (options: PlayerOptions)
        ensures
            options == PlayerOptions::default_options(),
    {
        PlayerOptions {
            max_execution_duration: None,
            viewport_dimensions: None,
            with_renderer: None,
            with_audio: false,
            with_video: false,
            runtime: PlayerRuntime::FlashPlayer,
            mode: None,
        }
    }
}

/// Where a test runs: what is asked of it, and what it hands out.
///
/// What an environment answers is its own affair, and may differ from one call
/// to the next. The two relations give its possible answers a name, so that a
/// caller can say which question an answer belongs to. They promise nothing of
/// the answers themselves: an environment that does not say otherwise may give
/// any answer.
pub trait Environment {
    /// The handle by which a test reads back what was rendered.
    type Interface;

    /// The backend that the runtime under test renders with.
    type Backend;

    /// `supported` is an answer that the environment may give when it is asked
    /// whether a renderer that meets the options can be had.
    open spec fn may_answer(&self, requirements: RenderOptions, supported: bool) -> bool {
        true
    }

    /// `renderer` is what the environment may hand out when it is asked for a
    /// renderer of the given size.
    open spec fn may_create(
        &self,
        width: u32,
        height: u32,
        renderer: Option<(Self::Interface, Self::Backend)>,
    ) -> bool {
        true
    }

    /// Whether a renderer that meets the options can be had here.
    fn is_render_supported(&self, requirements: &RenderOptions) -> (supported: bool)
        ensures
            self.may_answer(*requirements, supported),
    ;

    /// Creates a renderer of the given size, if there is one to be had.
    fn create_renderer(&self, width: u32, height: u32) -> (renderer: Option<
        (Self::Interface, Self::Backend),
    >)
        ensures
            self.may_create(width, height, renderer),
    ;
}

impl PlayerOptions {
    /// The options of a test that configures none: no limit, no renderer, no
    /// audio and no video.
    pub open spec fn default_options() -> PlayerOptions {
        PlayerOptions {
            max_execution_duration: None,
            viewport_dimensions: None,
            with_renderer: None,
            with_audio: false,
            with_video: false,
            runtime: PlayerRuntime::FlashPlayer,
            mode: None,
        }
    }

    /// What `setup` hands to the builder: the limits and switches as they are
    /// configured, the quality that stands for the sample count where the test
    /// renders, and the debug mode where no mode is configured.
    pub open spec fn player_setup(&self) -> PlayerSetup {
        PlayerSetup {
            max_execution_duration: self.max_execution_duration,
            quality: match self.with_renderer {
                Some(render) => Some(quality_of(render.sample_count)),
                None => None,
            },
            with_audio: self.with_audio,
            with_video: self.with_video,
            runtime: self.runtime,
            mode: match self.mode {
                Some(mode) => mode,
                None => PlayerMode::Debug,
            },
        }
    }

    /// Works out what the builder of the runtime is handed.
    pub fn setup(&self) -> (setup: PlayerSetup)
        ensures
            setup == self.player_setup(),
    {
        PlayerSetup {
            max_execution_duration: self.max_execution_duration,
            quality: match &self.with_renderer {
                Some(render) => Some(stage_quality(render.sample_count)),
                None => None,
            },
            with_audio: self.with_audio,
            with_video: self.with_video,
            runtime: self.runtime,
            mode: match self.mode {
                Some(mode) => mode,
                None => PlayerMode::Debug,
            },
        }
    }

    /// The render options whose support decides whether the test can run: those
    /// of a test that renders and does not make rendering optional, where the
    /// renderer is to be checked at all.
    pub open spec fn probed(&self, check_renderer: bool) -> Option<RenderOptions> {
        match self.with_renderer {
            Some(render) => if check_renderer && !render.optional {
                Some(render)
            } else {
                None
            },
            None => None,
        }
    }

    /// Says which render options the environment is to be asked about, if any.
    pub fn render_probe(&self, check_renderer: bool) -> (probe: Option<&RenderOptions>)
        ensures
            match probe {
                Some(render) => self.probed(check_renderer) == Some(*render),
                None => self.probed(check_renderer) is None,
            },
    {
        match &self.with_renderer {
            Some(render) => if check_renderer && !render.optional {
                Some(render)
            } else {
                None
            },
            None => None,
        }
    }

    /// Whether the test can run, given what the environment said of the render
    /// options that `render_probe` names. Where it names none, the answer does
    /// not matter.
    pub fn can_run_with(&self, check_renderer: bool, supported: bool) -> (runnable: bool)
        ensures
            runnable == (self.probed(check_renderer) is Some ==> supported),
    {
        match self.render_probe(check_renderer) {
            Some(_) => supported,
            None => true,
        }
    }

    /// Whether the test can run in an environment. The environment is asked
    /// only where its answer decides, since finding out may be costly: where
    /// `probed` names render options, the result is what the environment
    /// answers about exactly those; otherwise the test can run.
    pub fn can_run<E: Environment>(&self, check_renderer: bool, environment: &E) -> (runnable:
        bool)
        ensures
            match self.probed(check_renderer) {
                Some(render) => environment.may_answer(render, runnable),
                None => runnable,
            },
    {
        match self.render_probe(check_renderer) {
            Some(render) => {
                let supported: bool = environment.is_render_supported(render);
                self.can_run_with(check_renderer, supported)
            },
            None => true,
        }
    }

    /// The dimensions of the viewport: those configured, or else the size of the
    /// content itself at a scale factor of 1.
    pub fn viewport_dimensions(&self, movie_width: u32, movie_height: u32) -> (dimensions:
        ViewportDimensions)
        ensures
            dimensions == match self.viewport_dimensions {
                Some(configured) => configured,
                None => ViewportDimensions {
                    width: movie_width,
                    height: movie_height,
                    scale_factor: UNIT_SCALE_FACTOR,
                },
            },
    {
        match self.viewport_dimensions {
            Some(configured) => configured,
            None => ViewportDimensions {
                width: movie_width,
                height: movie_height,
                scale_factor: UNIT_SCALE_FACTOR,
            },
        }
    }

    /// Creates the renderer of a test that renders: what the environment hands
    /// out for the width and height of the dimensions. The environment is asked
    /// for none where the test does not render.
    pub fn create_renderer<E: Environment>(
        &self,
        environment: &E,
        dimensions: ViewportDimensions,
    ) -> (renderer: Option<(E::Interface, E::Backend)>)
        ensures
            match self.with_renderer {
                Some(_) => environment.may_create(dimensions.width, dimensions.height, renderer),
                None => renderer is None,
            },
    {
        if self.with_renderer.is_some() {
            environment.create_renderer(dimensions.width, dimensions.height)
        } else {
            None
        }
    }
}

/// Replacement of a font by a file of the test.
#[derive(Clone, Debug, PartialEq, Eq)]
pub struct FontOptions {
    pub family: String,
    pub path: String,
    pub bold: bool,
    pub italic: bool,
}

impl Default for FontOptions {
    fn default() -> (options: FontOptions)
        ensures
            options.family@.len() == 0,
            options.path@.len() == 0,
            !options.bold,
            !options.italic,
    {
        FontOptions { family: String::new(), path: String::new(), bold: false, italic: false }
    }
}

/// An image comparison under its name.
#[derive(Clone, Debug, PartialEq, Eq)]
pub struct NamedComparison {
    pub name: String,
    pub comparison: ImageComparison,
}

/// A font replacement under the name of the font that it replaces.
#[derive(Clone, Debug, PartialEq, Eq)]
pub struct NamedFont {
    pub name: String,
    pub font: FontOptions,
}

/// The options of one test case.
#[derive(Clone, Debug, PartialEq, Eq)]
pub struct TestOptions {
    /// Number of frames to run.
    pub num_frames: Option<u32>,
    /// Number of ticks to run.
    pub num_ticks: Option<u32>,
    /// Bit pattern of the length of a tick, a binary64 number of milliseconds.
    pub tick_rate: Option<u64>,
    /// Path of the expected log output, relative to the directory of the test.
    pub output_path: String,
    pub sleep_to_meet_frame_rate: bool,
    /// The image comparisons by name. No name occurs twice.
    pub image_comparisons: Vec<NamedComparison>,
    pub ignore: bool,
    /// The test is expected to fail; diagnostic images are not written.
    pub known_failure: bool,
    pub approximations: Option<Approximations>,
    pub player_options: PlayerOptions,
    pub log_fetch: bool,
    pub required_features: RequiredFeatures,
    /// The font replacements by name. No name occurs twice.
    pub fonts: Vec<NamedFont>,
}

/// The segment has more than one character and ends in a slash.
pub open spec fn ends_in_slash(segment: Seq<char>) -> bool {
    segment.len() > 1 && segment.last() == '/'
}

/// The text of a path.
pub uninterp spec fn path_text(path: vfs::VfsPath) -> Seq<char>;

/// The text of the path that `vfs::VfsPath::join` makes of the text of a path
/// and a segment that it accepts.
pub uninterp spec fn joined_path(base: Seq<char>, segment: Seq<char>) -> Seq<char>;

#[verifier::external_type_specification]
#[verifier::external_body]
pub struct ExVfsPath(vfs::VfsPath);

#[verifier::external_type_specification]
#[verifier::external_body]
pub struct ExVfsError(vfs::VfsError);

/// Calls `vfs::VfsPath::join`. The contract claims that exactly a segment of
/// more than one character that ends in a slash is refused, and that the text
/// of the joined path depends on the text of the path and on the segment alone.
#[verifier::external_body]
fn join(directory: &vfs::VfsPath, segment: &str) -> (joined: Result<vfs::VfsPath, vfs::VfsError>)
    ensures
        match joined {
            Ok(path) => !ends_in_slash(segment@) && path_text(path) == joined_path(
                path_text(*directory),
                segment@,
            ),
            Err(_) => ends_in_slash(segment@),
        },
{
    directory.join(segment)
}

/// The triggers of a list of comparisons, in its order.
pub open spec fn triggers_of(comparisons: Seq<NamedComparison>) -> Seq<ImageTrigger> {
    Seq::new(comparisons.len(), |i: int| comparisons[i].comparison.trigger)
}

/// The captures with indices `i` and `j` share a trigger that only one capture
/// may use.
pub open spec fn clash(triggers: Seq<ImageTrigger>, i: int, j: int) -> bool {
    0 <= i < j < triggers.len() && triggers[i] == triggers[j] && !triggers[j].is_manual()
}

/// The capture with index `j` repeats the trigger of an earlier capture.
pub open spec fn repeats(triggers: Seq<ImageTrigger>, j: int) -> bool {
    exists|i: int| clash(triggers, i, j)
}

/// The capture with index `j` is the first that repeats a trigger.
pub open spec fn first_repeat(triggers: Seq<ImageTrigger>, j: int) -> bool {
    &&& 0 <= j < triggers.len()
    &&& repeats(triggers, j)
    &&& forall|k: int| 0 <= k < j ==> !repeats(triggers, k)
}

/// No two captures share a trigger that only one capture may use.
pub open spec fn triggers_valid(triggers: Seq<ImageTrigger>) -> bool {
    forall|i: int, j: int| !clash(triggers, i, j)
}

impl TestOptions {
    /// No name of an image comparison and no name of a font occurs twice.
    pub open spec fn wf(&self) -> bool {
        &&& forall|i: int, j: int|
            0 <= i < j < self.image_comparisons@.len() ==> self.image_comparisons@[i].name@
                != self.image_comparisons@[j].name@
        &&& forall|i: int, j: int|
            0 <= i < j < self.fonts@.len() ==> self.fonts@[i].name@ != self.fonts@[j].name@
    }

    /// The index of the image comparison of the given name, if there is one.
    pub open spec fn comparison_index(&self, name: Seq<char>) -> Option<int> {
        if exists|i: int|
            0 <= i < self.image_comparisons@.len() && #[trigger] self.image_comparisons@[i].name@
                == name {
            Some(
                choose|i: int|
                    0 <= i < self.image_comparisons@.len()
                        && #[trigger] self.image_comparisons@[i].name@ == name,
            )
        } else {
            None
        }
    }

    /// Finds the image comparison of the given name.
    pub fn image_comparison(&self, name: &str) -> (found: Option<&ImageComparison>)
        requires
            self.wf(),
        ensures
            match found {
                Some(comparison) => self.comparison_index(name@) matches Some(i)
                    && *comparison == self.image_comparisons@[i].comparison,
                None => self.comparison_index(name@) is None,
            },
    {
        let wanted: String = String::from_str(name);
        let mut i: usize = 0;
        while i < self.image_comparisons.len()
            invariant
                i <= self.image_comparisons@.len(),
                self.wf(),
                wanted@ == name@,
                forall|k: int| 0 <= k < i ==> #[trigger] self.image_comparisons@[k].name@ != name@,
            decreases self.image_comparisons@.len() - i,
        {
            if self.image_comparisons[i].name == wanted {
                proof {
                    let chosen = self.comparison_index(name@)->Some_0;
                    assert(self.image_comparisons@[i as int].name@ == name@);
                    assert(chosen == i) by {
                        if chosen < i {
                            assert(self.image_comparisons@[chosen].name@ != name@);
                        } else if chosen > i {
                            assert(self.image_comparisons@[i as int].name@
                                != self.image_comparisons@[chosen].name@);
                        }
                    }
                }
                return Some(&self.image_comparisons[i].comparison);
            }
            i = i + 1;
        }
        None
    }

    /// Adds an image comparison under a name that no comparison has yet. The
    /// comparison is refused, and handed back, where the name is taken.
    pub fn add_image_comparison(&mut self, name: String, comparison: ImageComparison) -> (added:
        Result<(), ImageComparison>)
        requires
            old(self).wf(),
        ensures
            final(self).wf(),
            match added {
                Ok(_) => old(self).comparison_index(name@) is None
                    && final(self).image_comparisons@ == old(self).image_comparisons@.push(
                    NamedComparison { name, comparison },
                ),
                Err(refused) => old(self).comparison_index(name@) is Some && refused == comparison
                    && final(self).image_comparisons@ == old(self).image_comparisons@,
            },
            *final(self) == (TestOptions {
                image_comparisons: final(self).image_comparisons,
                ..*old(self)
            }),
    {
        let mut i: usize = 0;
        while i < self.image_comparisons.len()
            invariant
                i <= self.image_comparisons@.len(),
                *self == *old(self),
                self.wf(),
                forall|k: int| 0 <= k < i ==> #[trigger] self.image_comparisons@[k].name@ != name@,
            decreases self.image_comparisons@.len() - i,
        {
            if self.image_comparisons[i].name == name {
                assert(self.image_comparisons@[i as int].name@ == name@);
                return Err(comparison);
            }
            i = i + 1;
        }
        self.image_comparisons.push(NamedComparison { name, comparison });
        Ok(())
    }

    /// The index of the font replacement of the given name, if there is one.
    pub open spec fn font_index(&self, name: Seq<char>) -> Option<int> {
        if exists|i: int|
            0 <= i < self.fonts@.len() && #[trigger] self.fonts@[i].name@
                == name {
            Some(
                choose|i: int|
                    0 <= i < self.fonts@.len()
                        && #[trigger] self.fonts@[i].name@ == name,
            )
        } else {
            None
        }
    }

    /// Finds the font replacement of the given name.
    pub fn font(&self, name: &str) -> (found: Option<&FontOptions>)
        requires
            self.wf(),
        ensures
            match found {
                Some(font) => self.font_index(name@) matches Some(i)
                    && *font == self.fonts@[i].font,
                None => self.font_index(name@) is None,
            },
    {
        let wanted: String = String::from_str(name);
        let mut i: usize = 0;
        while i < self.fonts.len()
            invariant
                i <= self.fonts@.len(),
                self.wf(),
                wanted@ == name@,
                forall|k: int| 0 <= k < i ==> #[trigger] self.fonts@[k].name@ != name@,
            decreases self.fonts@.len() - i,
        {
            if self.fonts[i].name == wanted {
                proof {
                    let chosen = self.font_index(name@)->Some_0;
                    assert(self.fonts@[i as int].name@ == name@);
                    assert(chosen == i) by {
                        if chosen < i {
                            assert(self.fonts@[chosen].name@ != name@);
                        } else if chosen > i {
                            assert(self.fonts@[i as int].name@
                                != self.fonts@[chosen].name@);
                        }
                    }
                }
                return Some(&self.fonts[i].font);
            }
            i = i + 1;
        }
        None
    }

    /// Adds a font replacement under a name that no replacement has yet. The
    /// replacement is refused, and handed back, where the name is taken.
    pub fn add_font(&mut self, name: String, font: FontOptions) -> (added:
        Result<(), FontOptions>)
        requires
            old(self).wf(),
        ensures
            final(self).wf(),
            match added {
                Ok(_) => old(self).font_index(name@) is None
                    && final(self).fonts@ == old(self).fonts@.push(
                    NamedFont { name, font },
                ),
                Err(refused) => old(self).font_index(name@) is Some && refused == font
                    && final(self).fonts@ == old(self).fonts@,
            },
            *final(self) == (TestOptions { fonts: final(self).fonts, ..*old(self) }),
    {
        let mut i: usize = 0;
        while i < self.fonts.len()
            invariant
                i <= self.fonts@.len(),
                *self == *old(self),
                self.wf(),
                forall|k: int| 0 <= k < i ==> #[trigger] self.fonts@[k].name@ != name@,
            decreases self.fonts@.len() - i,
        {
            if self.fonts[i].name == name {
                assert(self.fonts@[i as int].name@ == name@);
                return Err(font);
            }
            i = i + 1;
        }
        self.fonts.push(NamedFont { name, font });
        Ok(())
    }

    /// The triggers of the image comparisons.
    pub open spec fn triggers(&self) -> Seq<ImageTrigger> {
        triggers_of(self.image_comparisons@)
    }

    /// Whether an earlier capture than the one with index `j` has its trigger.
    fn trigger_seen_before(&self, j: usize) -> (seen: bool)
        requires
            j < self.image_comparisons@.len(),
        ensures
            seen == exists|i: int|
                0 <= i < j && #[trigger] self.triggers()[i] == self.triggers()[j as int],
    {
        let trigger: ImageTrigger = self.image_comparisons[j].comparison.trigger;
        let mut i: usize = 0;
        while i < j
            invariant
                i <= j < self.image_comparisons@.len(),
                trigger == self.triggers()[j as int],
                forall|k: int| 0 <= k < i ==> #[trigger] self.triggers()[k] != trigger,
            decreases j - i,
        {
            if self.image_comparisons[i].comparison.trigger == trigger {
                assert(self.triggers()[i as int] == self.triggers()[j as int]);
                return true;
            }
            i = i + 1;
        }
        false
    }

    /// Checks that the captures can be told apart by their triggers: apart from
    /// the explicit command, which any number of captures may share, no trigger
    /// is used twice. The error names the trigger of the first capture that
    /// repeats one.
    pub fn validate(&self) -> (valid: Result<(), ConfigError>)
        ensures
            valid is Ok <==> triggers_valid(self.triggers()),
            valid matches Err(error) ==> exists|j: int|
                first_repeat(self.triggers(), j) && error == (ConfigError::DuplicateTrigger {
                    trigger: self.triggers()[j],
                }),
    {
        let ghost triggers = self.triggers();
        let mut j: usize = 0;
        while j < self.image_comparisons.len()
            invariant
                j <= self.image_comparisons@.len(),
                triggers == self.triggers(),
                forall|k: int| 0 <= k < j ==> !repeats(triggers, k),
            decreases self.image_comparisons@.len() - j,
        {
            let trigger: ImageTrigger = self.image_comparisons[j].comparison.trigger;
            if trigger != ImageTrigger::FsCommand && self.trigger_seen_before(j) {
                proof {
                    let i = choose|i: int|
                        0 <= i < j && #[trigger] self.triggers()[i] == self.triggers()[j as int];
                    assert(clash(triggers, i, j as int));
                    assert(first_repeat(triggers, j as int));
                }
                return Err(ConfigError::DuplicateTrigger { trigger });
            }
            proof {
                if repeats(triggers, j as int) {
                    let i = choose|i: int| clash(triggers, i, j as int);
                    assert(triggers[i] == triggers[j as int]);
                }
            }
            j = j + 1;
        }
        proof {
            assert forall|a: int, b: int| !clash(triggers, a, b) by {
                if clash(triggers, a, b) {
                    assert(repeats(triggers, b));
                }
            }
        }
        Ok(())
    }

    /// The path of the expected log output below the directory of the test.
    /// Fails for an output path of more than one character that ends in a
    /// slash.
    pub fn output_path(&self, test_directory: &vfs::VfsPath) -> (path: Result<
        vfs::VfsPath,
        ConfigError,
    >)
        ensures
            path is Err <==> ends_in_slash(self.output_path@),
            path matches Err(error) ==> error == ConfigError::InvalidOutputPath,
            path matches Ok(joined) ==> path_text(joined) == joined_path(
                path_text(*test_directory),
                self.output_path@,
            ),
    {
        match join(test_directory, self.output_path.as_str()) {
            Ok(joined) => Ok(joined),
            Err(_) => Err(ConfigError::InvalidOutputPath),
        }
    }
}

impl Default for TestOptions {
    fn default() -> (options: TestOptions)
        ensures
            options.num_frames is None,
            options.num_ticks is None,
            options.tick_rate is None,
            options.output_path@ == "output.txt"@,
            !options.sleep_to_meet_frame_rate,
            options.image_comparisons@.len() == 0,
            !options.ignore,
            !options.known_failure,
            options.approximations is None,
            options.player_options == PlayerOptions::default_options(),
            !options.log_fetch,
            options.required_features == (RequiredFeatures { lzma: false, jpegxr: false }),
            options.fonts@.len() == 0,
            options.wf(),
            triggers_valid(options.triggers()),
    {
        TestOptions {
            num_frames: None,
            num_ticks: None,
            tick_rate: None,
            output_path: String::from_str("output.txt"),
            sleep_to_meet_frame_rate: false,
            image_comparisons: Vec::new(),
            ignore: false,
            known_failure: false,
            approximations: None,
            player_options: PlayerOptions::default(),
            log_fetch: false,
            required_features: RequiredFeatures::default(),
            fonts: Vec::new(),
        }
    }
}

/// Any number of captures may share the explicit command as their trigger.
pub proof fn manual_triggers_may_repeat(triggers: Seq<ImageTrigger>)
    requires
        forall|i: int| 0 <= i < triggers.len() ==> triggers[i].is_manual(),
    ensures
        triggers_valid(triggers),
{
}

/// Two captures with the same trigger, other than the explicit command, make a
/// configuration invalid, whatever else it holds.
pub proof fn shared_trigger_is_invalid(triggers: Seq<ImageTrigger>, i: int, j: int)
    requires
        0 <= i < triggers.len(),
        0 <= j < triggers.len(),
        i != j,
        triggers[i] == triggers[j],
        !triggers[i].is_manual(),
    ensures
        !triggers_valid(triggers),
{
    if i < j {
        assert(clash(triggers, i, j));
    } else {
        assert(clash(triggers, j, i));
    }
}

} // verus!
