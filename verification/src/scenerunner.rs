//! Running a scene: its window parameters, the choice of the recipe from the
//! command line, and what the main loop does with each window event.
use vstd::prelude::*;
use vstd::string::StringExecFns;
use vstd::utf8::encode_utf8;
use crate::error::{GLError, GLErrorKind};

verus! {

/// Runs scenes; the window and the OpenGL context live with the caller.
pub struct SceneRunner;

/// The parameters of a scene's window.
#[derive(Debug, Clone)]
pub struct SceneParams {
    title: String,
    width: u32,
    height: u32,
    samples: u16,
    is_debug: bool,
}

/// What the parameters of a scene's window say.
pub struct SceneParamsView {
    pub title: Seq<char>,
    pub width: u32,
    pub height: u32,
    pub samples: u16,
    pub is_debug: bool,
}

impl View for SceneParams {
    type V = SceneParamsView;

    closed spec fn view(&self) -> SceneParamsView {
        SceneParamsView {
            title: self.title@,
            width: self.width,
            height: self.height,
            samples: self.samples,
            is_debug: self.is_debug,
        }
    }
}

impl From<(String, u32, u32, u16, bool)> for SceneParams {
    /// Parameters from (title, width, height, samples, is_debug).
    fn from(v: (String, u32, u32, u16, bool)) -> (p: SceneParams)
        ensures
            p@ == (SceneParamsView { title: v.0@, width: v.1, height: v.2, samples: v.3, is_debug: v.4 }),
    {
        SceneParams { title: v.0, width: v.1, height: v.2, samples: v.3, is_debug: v.4 }
    }
}

impl vstd::std_specs::convert::FromSpecImpl<(String, u32, u32, u16, bool)> for SceneParams {
    open spec fn obeys_from_spec() -> bool {
        true
    }

    closed spec fn from_spec(v: (String, u32, u32, u16, bool)) -> SceneParams {
        SceneParams { title: v.0, width: v.1, height: v.2, samples: v.3, is_debug: v.4 }
    }
}

impl SceneParams {
    /// The window title.
    pub fn title(&self) -> (t: &String)
        ensures
            t@ == self@.title,
    {
        &self.title
    }

    /// The window's inner width.
    pub fn width(&self) -> (w: u32)
        ensures
            w == self@.width,
    {
        self.width
    }

    /// The window's inner height.
    pub fn height(&self) -> (h: u32)
        ensures
            h == self@.height,
    {
        self.height
    }

    /// The number of multisampling samples.
    pub fn samples(&self) -> (s: u16)
        ensures
            s == self@.samples,
    {
        self.samples
    }

    /// Whether debug messages are enabled.
    pub fn is_debug(&self) -> (d: bool)
        ensures
            d == self@.is_debug,
    {
        self.is_debug
    }
}

/// The message of the error for a command line without a recipe name.
pub const MISSING_RECIPE_MESSAGE: &'static str =
    "You must provide at least 2 arguments;\nFor example: $ cargo r --example chapter01 basic\n";

/// The first index at which `candidates` has the name `name`, if any.
pub open spec fn first_candidate(candidates: Seq<(String, String)>, name: Seq<char>) -> Option<int> {
    if exists|i: int| 0 <= i < candidates.len() && (#[trigger] candidates[i]).0@ == name {
        Some(
            choose|i: int|
                0 <= i < candidates.len() && (#[trigger] candidates[i]).0@ == name && forall|j: int|
                    0 <= j < i ==> (#[trigger] candidates[j]).0@ != name,
        )
    } else {
        None
    }
}

/// An index at or before `i` that holds the name `name` with no earlier one holding it.
proof fn least_candidate_index(candidates: Seq<(String, String)>, name: Seq<char>, i: int) -> (k: int)
    requires
        0 <= i < candidates.len(),
        candidates[i].0@ == name,
    ensures
        0 <= k <= i,
        candidates[k].0@ == name,
        forall|j: int| 0 <= j < k ==> (#[trigger] candidates[j]).0@ != name,
    decreases i,
{
    if exists|j: int| 0 <= j < i && (#[trigger] candidates[j]).0@ == name {
        let j = choose|j: int| 0 <= j < i && (#[trigger] candidates[j]).0@ == name;
        least_candidate_index(candidates, name, j)
    } else {
        i
    }
}

/// `first_candidate` finds a name exactly when some candidate has it, and what it
/// finds is the least index holding that name.
pub proof fn lemma_first_candidate(candidates: Seq<(String, String)>, name: Seq<char>)
    ensures
        first_candidate(candidates, name) is Some <==> exists|i: int|
            0 <= i < candidates.len() && (#[trigger] candidates[i]).0@ == name,
        first_candidate(candidates, name) matches Some(i) ==> {
            &&& 0 <= i < candidates.len()
            &&& candidates[i].0@ == name
            &&& forall|j: int| 0 <= j < i ==> (#[trigger] candidates[j]).0@ != name
        },
{
    if exists|i: int| 0 <= i < candidates.len() && (#[trigger] candidates[i]).0@ == name {
        let i = choose|i: int| 0 <= i < candidates.len() && (#[trigger] candidates[i]).0@ == name;
        let k = least_candidate_index(candidates, name, i);
        assert(0 <= k < candidates.len() && (#[trigger] candidates[k]).0@ == name && forall|j: int|
            0 <= j < k ==> (#[trigger] candidates[j]).0@ != name);
    }
}

/// The length in bytes of a name, as `str::len` gives it.
pub open spec fn name_len(name: Seq<char>) -> usize {
    encode_utf8(name).len() as usize
}

impl SceneRunner {
    /// The recipe that the command line `args` (the program name first) asks for,
    /// with its description from `candidates` (pairs of name and description):
    /// `Args` error when no recipe name is given, or when it is not a candidate's
    /// name. Candidate names are distinct, as those of a map.
    pub fn parse_command_line_args(args: &Vec<String>, candidates: &Vec<(String, String)>) -> (r: Result<
        (String, String),
        GLError,
    >)
        ensures
            args@.len() < 2 ==> (r matches Err(e) && e.spec_kind() matches GLErrorKind::Args {
                description,
            } && description@ == MISSING_RECIPE_MESSAGE@),
            args@.len() >= 2 ==> match first_candidate(candidates@, args@[1]@) {
                Some(i) => r matches Ok((name, description)) && name@ == args@[1]@ && description@
                    == candidates@[i].1@,
                None => r matches Err(e) && e.spec_kind() matches GLErrorKind::Args {
                    description,
                } && description@ == "Unknown recipe: "@ + args@[1]@ + "\n"@,
            },
    {
        if args.len() < 2 {
            return Err(GLError::args(MISSING_RECIPE_MESSAGE));
        }
        let name = &args[1];
        let mut i: usize = 0;
        while i < candidates.len()
            invariant
                0 <= i <= candidates@.len(),
                args@.len() >= 2,
                name == args@[1],
                forall|j: int| 0 <= j < i ==> (#[trigger] candidates@[j]).0@ != name@,
            decreases candidates@.len() - i,
        {
            if candidates[i].0 == *name {
                proof {
                    assert(candidates@[i as int].0@ == name@);
                    lemma_first_candidate(candidates@, name@);
                }
                return Ok((name.clone(), candidates[i].1.clone()));
            }
            i = i + 1;
        }
        let message = String::from_str("Unknown recipe: ").concat(name.as_str()).concat("\n");
        Err(GLError::args(message.as_str()))
    }

    /// The width of the recipe-name column of the help text: the longest name
    /// in bytes, or 10 when there is none.
    pub fn recipe_name_width(candidates: &Vec<(String, String)>) -> (w: usize)
        ensures
            candidates@.len() == 0 ==> w == 10,
            candidates@.len() > 0 ==> (exists|i: int|
                0 <= i < candidates@.len() && w == name_len((#[trigger] candidates@[i]).0@))
                && forall|i: int|
                0 <= i < candidates@.len() ==> name_len((#[trigger] candidates@[i]).0@) <= w,
    {
        if candidates.len() == 0 {
            return 10;
        }
        let mut w = candidates[0].0.as_str().len();
        let mut i: usize = 1;
        while i < candidates.len()
            invariant
                1 <= i <= candidates@.len(),
                exists|k: int| 0 <= k < i && w == name_len((#[trigger] candidates@[k]).0@),
                forall|k: int| 0 <= k < i ==> name_len((#[trigger] candidates@[k]).0@) <= w,
            decreases candidates@.len() - i,
        {
            let len = candidates[i].0.as_str().len();
            if len > w {
                w = len;
            }
            i = i + 1;
        }
        w
    }
}

/// A key that the main loop reacts to.
#[derive(Debug, Clone, Copy, PartialEq, Eq)]
pub enum Key {
    Space,
    Escape,
    Other,
}

/// An event that the window delivers to the main loop.
#[derive(Debug, Clone, Copy, PartialEq, Eq)]
pub enum LoopEvent {
    /// The user asked to close the window.
    CloseRequested,
    /// A key changed state; `key` is `None` for a key without a virtual key code.
    KeyboardInput { key: Option<Key>, released: bool },
    /// The window was resized.
    Resized,
    /// Any other event.
    Other,
}

/// What the main loop does in answer to an event, besides updating, drawing and
/// timing the frame, which it does for every event.
#[derive(Debug, Clone, Copy)]
pub struct LoopAction {
    /// Insert the "End debug" marker into the OpenGL debug stream.
    pub end_debug_marker: bool,
    /// Leave the main loop.
    pub exit: bool,
    /// Start or stop the scene's animation.
    pub toggle_animation: bool,
    /// Hand the new framebuffer size to the scene.
    pub resize: bool,
}

impl SceneRunner {
    /// The answer to `event`: closing the window or releasing Escape exits (with
    /// the end marker in debug mode), releasing Space toggles the animation, a
    /// resize resizes the scene, and anything else does nothing more.
    pub fn handle_event(event: LoopEvent, is_debug: bool) -> (a: LoopAction)
        ensures
            a.exit <==> (event == LoopEvent::CloseRequested || event == (LoopEvent::KeyboardInput {
                key: Some(Key::Escape),
                released: true,
            })),
            a.end_debug_marker <==> a.exit && is_debug,
            a.toggle_animation <==> event == (LoopEvent::KeyboardInput {
                key: Some(Key::Space),
                released: true,
            }),
            a.resize <==> event == LoopEvent::Resized,
    {
        let none = LoopAction { end_debug_marker: false, exit: false, toggle_animation: false, resize: false };
        match event {
            LoopEvent::CloseRequested => LoopAction { end_debug_marker: is_debug, exit: true, ..none },
            LoopEvent::KeyboardInput { key, released } => match (key, released) {
                (Some(Key::Space), true) => LoopAction { toggle_animation: true, ..none },
                (Some(Key::Escape), true) => LoopAction { end_debug_marker: is_debug, exit: true, ..none },
                _ => none,
            },
            LoopEvent::Resized => LoopAction { resize: true, ..none },
            LoopEvent::Other => none,
        }
    }
}

} // verus!
