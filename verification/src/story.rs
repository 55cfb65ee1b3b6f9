//! The story graph: scenes, their messages, and the keyed choices that join
//! them. Built once by a loader, never mutated afterwards.
use vstd::prelude::*;

verus! {

/// The different kinds of choices available for the story.
#[derive(Debug, PartialEq)]
pub enum Choice {
    /// A choice to change the current scene to another scene.
    MoveScene { destination: String },
    /// A choice to end the story.
    Exit,
}

/// A scene in the story, such as a room, or a point in a conversation.
#[derive(Debug, PartialEq)]
pub struct Scene {
    /// The choices that can be made in the scene, keyed by verb.
    pub choices: Vec<(String, Choice)>,
    /// A description of the scene.
    pub message: String,
}

/// The story to be told.
#[derive(Debug, PartialEq)]
pub struct Story {
    /// The name of the first scene in the story.
    pub intro: String,
    /// The scenes in the story, keyed by scene name.
    pub scenes: Vec<(String, Scene)>,
}

/// The mathematical value of a `Choice`.
pub enum ChoiceView {
    MoveScene { destination: Seq<char> },
    Exit,
}

/// The mathematical value of a `Scene`: its message and its choices as a map
/// from verb to choice.
pub struct SceneView {
    pub choices: Map<Seq<char>, ChoiceView>,
    pub message: Seq<char>,
}

/// The mathematical value of a `Story`: its intro key and its scenes as a map
/// from scene key to scene.
pub struct StoryView {
    pub intro: Seq<char>,
    pub scenes: Map<Seq<char>, SceneView>,
}

impl View for Choice {
    type V = ChoiceView;

    open spec fn view(&self) -> ChoiceView {
        match self {
            Choice::MoveScene { destination } => (ChoiceView::MoveScene {
                destination: destination@,
            }),
            Choice::Exit => ChoiceView::Exit,
        }
    }
}

/// The map held by an association list: each key is bound to the value of its
/// first entry, so entries never shadow an earlier key.
pub open spec fn assoc_view<T: View>(entries: Seq<(String, T)>) -> Map<Seq<char>, T::V>
    decreases entries.len(),
{
    if entries.len() == 0 {
        Map::empty()
    } else {
        assoc_view(entries.drop_first()).insert(entries.first().0@, entries.first().1@)
    }
}

impl View for Scene {
    type V = SceneView;

    open spec fn view(&self) -> SceneView {
        SceneView { choices: assoc_view(self.choices@), message: self.message@ }
    }
}

impl View for Story {
    type V = StoryView;

    open spec fn view(&self) -> StoryView {
        StoryView { intro: self.intro@, scenes: assoc_view(self.scenes@) }
    }
}

/// An entry whose key no earlier entry carries binds that key in the map.
proof fn lemma_assoc_view_found<T: View>(entries: Seq<(String, T)>, key: Seq<char>, i: int)
    requires
        0 <= i < entries.len(),
        entries[i].0@ == key,
        forall|j: int| 0 <= j < i ==> entries[j].0@ != key,
    ensures
        assoc_view(entries).contains_key(key),
        assoc_view(entries)[key] == entries[i].1@,
    decreases i,
{
    if i > 0 {
        lemma_assoc_view_found(entries.drop_first(), key, i - 1);
    }
}

/// A key that no entry carries is absent from the map.
proof fn lemma_assoc_view_absent<T: View>(entries: Seq<(String, T)>, key: Seq<char>)
    requires
        forall|j: int| 0 <= j < entries.len() ==> entries[j].0@ != key,
    ensures
        !assoc_view(entries).contains_key(key),
    decreases entries.len(),
{
    if entries.len() > 0 {
        lemma_assoc_view_absent(entries.drop_first(), key);
    }
}

/// Looks a key up in an association list: the first entry with that key wins,
/// exactly as in the list's map view.
fn assoc_get<'e, T: View>(entries: &'e Vec<(String, T)>, key: &String) -> (r: Option<&'e T>)
    ensures
        match r {
            Some(v) => assoc_view(entries@).contains_key(key@) && v@ == assoc_view(entries@)[key@],
            None => !assoc_view(entries@).contains_key(key@),
        },
{
    let n = entries.len();
    let mut i: usize = 0;
    while i < n
        invariant
            n == entries@.len(),
            i <= n,
            forall|j: int| 0 <= j < i ==> entries@[j].0@ != key@,
        decreases n - i,
    {
        if entries[i].0 == *key {
            proof {
                lemma_assoc_view_found(entries@, key@, i as int);
            }
            return Some(&entries[i].1);
        }
        i = i + 1;
    }
    proof {
        lemma_assoc_view_absent(entries@, key@);
    }
    None
}

impl Story {
    /// Looks a scene up by its key; pure, used both at telling construction
    /// and at every transition.
    pub fn get_scene<'s>(&'s self, key: &String) -> (r: Option<&'s Scene>)
        ensures
            match r {
                Some(scene) => self@.scenes.contains_key(key@) && scene@ == self@.scenes[key@],
                None => !self@.scenes.contains_key(key@),
            },
    {
        assoc_get(&self.scenes, key)
    }
}

impl Scene {
    /// Looks a choice up by its verb.
    pub fn get_choice<'s>(&'s self, verb: &String) -> (r: Option<&'s Choice>)
        ensures
            match r {
                Some(choice) => self@.choices.contains_key(verb@) && choice@
                    == self@.choices[verb@],
                None => !self@.choices.contains_key(verb@),
            },
    {
        assoc_get(&self.choices, verb)
    }
}

} // verus!
