//! One playthrough of a story: a cursor over the story graph that applies
//! choices atomically, so a failed choice leaves the telling untouched.
use crate::story::Choice;
use crate::story::ChoiceView;
use crate::story::SceneView;
use crate::story::Story;
use vstd::prelude::*;

verus! {

/// The introduction scene to a story didn't exist; this is a problem with the
/// story itself, and no telling can start from it.
#[derive(Debug, PartialEq)]
pub struct IntroSceneNotFound {}

/// The choice requested by the user did not exist for the current scene.
#[derive(Debug, PartialEq)]
pub struct ChoiceNotFound {
    pub choice: String,
}

/// The destination of a scene transfer didn't exist.
#[derive(Debug, PartialEq)]
pub struct SceneNotFound {
    pub destination: String,
}

/// Either way a choice can fail: an unknown verb, or a move whose destination
/// scene is missing from the story.
#[derive(Debug, PartialEq)]
pub enum TellingError {
    Choice(ChoiceNotFound),
    Scene(SceneNotFound),
}

/// The representation of a pass through a story: the story it walks, the key
/// of the scene the telling is at, and whether the story should keep running.
#[derive(Clone)]
pub struct Telling<'a> {
    pub story: &'a Story,
    pub scene: String,
    pub running: bool,
}

impl<'a> Telling<'a> {
    /// A telling is well formed when its current scene key resolves to a
    /// scene of its story; every operation keeps this, whether it succeeds
    /// or fails.
    pub open spec fn wf(self) -> bool {
        self.story@.scenes.contains_key(self.scene@)
    }

    /// The scene the telling is currently at.
    pub open spec fn spec_scene(self) -> SceneView {
        self.story@.scenes[self.scene@]
    }

    /// The message of the current scene.
    pub open spec fn spec_message(self) -> Seq<char> {
        self.spec_scene().message
    }

    /// Creates a new telling for a story, starting at the story's intro
    /// scene. Succeeds exactly when the intro key resolves to a scene, and
    /// then starts running at that scene.
    pub fn new(story: &'a Story) -> (r: Result<Telling<'a>, IntroSceneNotFound>)
        ensures
            story@.scenes.contains_key(story.intro@) <==> r is Ok,
            match r {
                Ok(t) => {
                    &&& t.wf()
                    &&& t.story == story
                    &&& t.scene@ == story.intro@
                    &&& t.running
                    &&& t.spec_message() == story@.scenes[story.intro@].message
                },
                Err(e) => e == (IntroSceneNotFound {  }),
            },
    {
        match story.get_scene(&story.intro) {
            Some(_) => Ok(Telling { story, scene: story.intro.clone(), running: true }),
            None => Err(IntroSceneNotFound {}),
        }
    }

    /// Gets the message for the current scene of the story. Meaningful while
    /// running and after the story has stopped: it reflects the last scene
    /// occupied.
    pub fn message(&self) -> (r: &String)
        requires
            self.wf(),
        ensures
            r@ == self.spec_message(),
    {
        let scene = self.story.get_scene(&self.scene).unwrap();
        &scene.message
    }

    /// Gets if the story should continue running.
    pub fn is_running(&self) -> (r: bool)
        ensures
            r == self.running,
    {
        self.running
    }

    /// Advances the story by doing the provided choice: looks the verb up in
    /// the current scene, then applies what it finds. A failed choice leaves
    /// the telling exactly as it was. A stopped telling is terminal, so a
    /// choice can only be made while the telling is running.
    pub fn make_choice(&mut self, choice: &String) -> (r: Result<(), TellingError>)
        requires
            old(self).wf(),
            old(self).running,
        ensures
            final(self).wf(),
            final(self).story == old(self).story,
            r is Err ==> *final(self) == *old(self),
            r is Err ==> final(self).spec_message() == old(self).spec_message()
                && final(self).running == old(self).running,
            !old(self).spec_scene().choices.contains_key(choice@) ==> (r matches Err(
                TellingError::Choice(c),
            ) && c.choice@ == choice@),
            old(self).spec_scene().choices.contains_key(choice@)
                ==> match old(self).spec_scene().choices[choice@] {
                ChoiceView::MoveScene { destination } => {
                    &&& old(self).story@.scenes.contains_key(destination) ==> {
                        &&& r is Ok
                        &&& final(self).scene@ == destination
                        &&& final(self).running
                    }
                    &&& !old(self).story@.scenes.contains_key(destination) ==> (r matches Err(
                        TellingError::Scene(e),
                    ) && e.destination@ == destination)
                },
                ChoiceView::Exit => {
                    &&& r is Ok
                    &&& final(self).scene == old(self).scene
                    &&& final(self).running == false
                },
            },
    {
        let scene = self.story.get_scene(&self.scene).unwrap();
        match scene.get_choice(choice) {
            Some(chosen) => match self.do_choice(chosen) {
                Ok(()) => Ok(()),
                Err(e) => Err(TellingError::Scene(e)),
            },
            None => Err(TellingError::Choice(ChoiceNotFound { choice: choice.clone() })),
        }
    }

    /// Applies one choice to the telling: a move swaps the current scene for
    /// an existing destination and fails atomically on a missing one; an exit
    /// stops the telling where it stands. A stopped telling is terminal, so a
    /// choice can only be applied while the telling is running.
    pub fn do_choice(&mut self, choice: &Choice) -> (r: Result<(), SceneNotFound>)
        requires
            old(self).wf(),
            old(self).running,
        ensures
            final(self).wf(),
            final(self).story == old(self).story,
            r is Err ==> *final(self) == *old(self),
            match choice {
                Choice::MoveScene { destination } => {
                    &&& old(self).story@.scenes.contains_key(destination@) ==> {
                        &&& r is Ok
                        &&& final(self).scene@ == destination@
                        &&& final(self).running
                    }
                    &&& !old(self).story@.scenes.contains_key(destination@) ==> (r matches Err(e)
                        && e.destination@ == destination@)
                },
                Choice::Exit => {
                    &&& r is Ok
                    &&& final(self).scene == old(self).scene
                    &&& final(self).running == false
                },
            },
    {
        match choice {
            Choice::MoveScene { destination } => match self.story.get_scene(destination) {
                Some(_) => {
                    self.scene = destination.clone();
                    Ok(())
                },
                None => Err(SceneNotFound { destination: destination.clone() }),
            },
            Choice::Exit => {
                self.running = false;
                Ok(())
            },
        }
    }
}

} // verus!
