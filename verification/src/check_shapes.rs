//! The periodic check that every shape kind in use has been registered.
use vstd::prelude::*;

verus! {

/// Time between two checks, in nanoseconds: three seconds.
pub const CHECK_INTERVAL: u128 = 3_000_000_000;

/// The start of the type name of the component that marks an entity as
/// drawn by a shape kind.
pub const SHADER_USAGE_PREFIX: &'static str = "param_shaders::components::ShaderUsage<";

/// The start of a warning.
pub const UNREGISTERED_WARNING: &'static str = "Unregistered Shader Extractable: ";

/// A component type of the world in the model.
pub struct ComponentSpec {
    pub id: usize,
    pub name: Seq<char>,
}

/// A component type of the world: its identifier and its type name.
#[derive(Clone, Debug)]
pub struct ComponentInfo {
    pub id: usize,
    pub name: String,
}

impl View for ComponentInfo {
    type V = ComponentSpec;

    open spec fn view(&self) -> ComponentSpec {
        ComponentSpec { id: self.id, name: self.name@ }
    }
}

/// Whether `text` starts with `prefix`.
pub open spec fn has_prefix(text: Seq<char>, prefix: Seq<char>) -> bool {
    prefix.len() <= text.len() && text.take(prefix.len() as int) == prefix
}

/// Whether `text` starts with `prefix`.
pub fn starts_with(text: &str, prefix: &str) -> (yes: bool)
    ensures
        yes == has_prefix(text@, prefix@),
{
    let text_len = text.unicode_len();
    let prefix_len = prefix.unicode_len();
    if prefix_len > text_len {
        return false;
    }
    let mut index: usize = 0;
    while index < prefix_len
        invariant
            index <= prefix_len <= text_len,
            prefix_len == prefix@.len(),
            text_len == text@.len(),
            forall|i: int| 0 <= i < index ==> text@[i] == prefix@[i],
        decreases prefix_len - index,
    {
        if text.get_char(index) != prefix.get_char(index) {
            return false;
        }
        index += 1;
    }
    assert(text@.take(prefix@.len() as int) =~= prefix@);
    true
}

/// Whether `component` marks the use of a shape kind that is not among
/// the `registered` ones.
pub open spec fn is_unregistered(component: ComponentSpec, registered: Seq<usize>) -> bool {
    has_prefix(component.name, SHADER_USAGE_PREFIX@) && !registered.contains(component.id)
}

/// The warning for the component called `name`.
pub open spec fn warning(name: Seq<char>) -> Seq<char> {
    UNREGISTERED_WARNING@ + name
}

/// One warning, in order, for each of `components` that marks the use of
/// a shape kind that is not registered.
pub open spec fn warnings(components: Seq<ComponentSpec>, registered: Seq<usize>) -> Seq<
    Seq<char>,
>
    decreases components.len(),
{
    if components.len() == 0 {
        Seq::empty()
    } else if is_unregistered(components.last(), registered) {
        warnings(components.drop_last(), registered).push(warning(components.last().name))
    } else {
        warnings(components.drop_last(), registered)
    }
}

/// The view of each of `components`.
pub open spec fn components_view(components: Seq<ComponentInfo>) -> Seq<ComponentSpec> {
    components.map_values(|c: ComponentInfo| c@)
}

/// The view of each of `texts`.
pub open spec fn texts_view(texts: Seq<String>) -> Seq<Seq<char>> {
    texts.map_values(|t: String| t@)
}

/// Whether `id` is among `registered`.
pub fn is_registered(registered: &Vec<usize>, id: usize) -> (yes: bool)
    ensures
        yes == registered@.contains(id),
{
    let mut index: usize = 0;
    while index < registered.len()
        invariant
            index <= registered.len(),
            forall|i: int| 0 <= i < index ==> registered@[i] != id,
        decreases registered.len() - index,
    {
        if registered[index] == id {
            return true;
        }
        index += 1;
    }
    false
}

/// What one tick of the check leaves behind.
#[derive(Debug)]
pub struct CheckOutcome {
    /// Time until the next check, in nanoseconds.
    pub remaining: u128,
    /// The warnings of this tick, to be logged.
    pub warnings: Vec<String>,
}

/// One tick of the check. While the time that remains is at least
/// `delta`, it only counts down. Otherwise it starts the interval anew
/// and warns of each shape kind that is in use and not registered.
pub fn check_extractables(
    components: &Vec<ComponentInfo>,
    registered: &Vec<usize>,
    delta: u128,
    remaining_time: u128,
) -> (outcome: CheckOutcome)
    ensures
        remaining_time >= delta ==> outcome.remaining == remaining_time - delta
            && outcome.warnings@.len() == 0,
        remaining_time < delta ==> outcome.remaining == CHECK_INTERVAL && texts_view(
            outcome.warnings@,
        ) == warnings(components_view(components@), registered@),
{
    if remaining_time >= delta {
        return CheckOutcome { remaining: remaining_time - delta, warnings: Vec::new() };
    }
    let ghost all = components_view(components@);
    let mut found: Vec<String> = Vec::new();
    let mut index: usize = 0;
    while index < components.len()
        invariant
            index <= components.len(),
            all == components_view(components@),
            texts_view(found@) == warnings(all.take(index as int), registered@),
        decreases components.len() - index,
    {
        let component = &components[index];
        proof {
            let prefix = all.take(index as int + 1);
            assert(prefix.drop_last() =~= all.take(index as int));
        }
        if starts_with(component.name.as_str(), SHADER_USAGE_PREFIX) && !is_registered(
            registered,
            component.id,
        ) {
            let mut text = String::from_str(UNREGISTERED_WARNING);
            text.append(component.name.as_str());
            found.push(text);
        }
        index += 1;
    }
    assert(all.take(index as int) =~= all);
    CheckOutcome { remaining: CHECK_INTERVAL, warnings: found }
}

} // verus!
