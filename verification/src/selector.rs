//! The program selector: presents the engine's example-program registry
//! as a choice list and hands the chosen program's bytes upward. The
//! first entry of the list is a placeholder that selects nothing, and
//! the selector is disabled once a program is loaded.

use vstd::prelude::*;

use crate::engine::{
    example_binary, example_bytes_of, example_count, example_name, spec_example_name,
    EXAMPLE_COUNT,
};
use crate::snapshot::MEMORY_SIZE;

verus! {

/// One entry of the rendered choice list.
#[derive(Clone, PartialEq, Eq, Debug)]
pub struct SelectOption {
    pub value: usize,
    pub label: String,
}

/// The rendered choice list: the placeholder, then one entry per example
/// program.
#[derive(Clone, PartialEq, Eq, Debug)]
pub struct SelectView {
    pub disabled: bool,
    pub placeholder: String,
    pub options: Vec<SelectOption>,
}

/// The program selector.
#[derive(Clone, Copy, PartialEq, Eq, Structural, Debug)]
pub struct ProgramSelect {
    pub disabled: bool,
}

/// One rendered entry of the choice list, labelled with the program's
/// name. Entry values start above the placeholder, so they sit two above
/// the registry index.
pub fn program_option(index: usize, name: String) -> (o: SelectOption)
    requires
        index + 2 <= usize::MAX,
    ensures
        o.value == index + 2,
        o.label@ == name@,
{
    let index = index + 1;
    SelectOption { value: index + 1, label: name }
}

/// The choice list's first entry is the placeholder, so a selected index
/// is shifted down by one to a registry index; the placeholder itself
/// selects nothing.
pub fn selection_to_msg(selected_index: usize) -> (msg: Option<usize>)
    ensures
        selected_index == 0 <==> msg is None,
        selected_index > 0 ==> msg == Some((selected_index - 1) as usize),
{
    if selected_index == 0 {
        None
    } else {
        Some(selected_index - 1)
    }
}

impl ProgramSelect {
    /// Build the selector from its properties.
    pub fn create(props: ProgramSelect) -> (c: Self)
        ensures
            c == props,
    {
        props
    }

    /// Take over new properties; the selector always re-renders.
    pub fn change(&mut self, props: ProgramSelect) -> (rerender: bool)
        ensures
            final(self).disabled == props.disabled,
            rerender,
    {
        self.disabled = props.disabled;
        true
    }

    /// Resolve a selection against the example registry: exactly the
    /// chosen program's bytes, which always fit into memory, or nothing
    /// when the selection is empty or out of range. A selection that
    /// yields bytes is the one case that asks for a re-render.
    pub fn update(&mut self, msg: Option<usize>) -> (r: Option<Vec<u8>>)
        ensures
            *final(self) == *old(self),
            r is Some <==> (msg is Some && msg->0 < EXAMPLE_COUNT),
            r is Some ==> r->0@ == example_bytes_of(msg->0 as int),
            r is Some ==> r->0@.len() <= MEMORY_SIZE,
    {
        match msg {
            Some(index) => example_binary(index),
            None => None,
        }
    }

    /// The rendered choice list: the placeholder, then every example
    /// program in registry order, each entry labelled with its program's
    /// name.
    pub fn view(&self) -> (v: SelectView)
        ensures
            v.disabled == self.disabled,
            v.placeholder@ == "Load a program"@,
            v.options@.len() == EXAMPLE_COUNT,
            forall|i: int|
                0 <= i < EXAMPLE_COUNT ==> (#[trigger] v.options@[i]).value == i + 2,
            forall|i: int|
                0 <= i < EXAMPLE_COUNT ==> (#[trigger] v.options@[i]).label@
                    == spec_example_name(i),
    {
        let count = example_count();
        let mut options: Vec<SelectOption> = Vec::new();
        let mut i: usize = 0;
        while i < count
            invariant
                count == EXAMPLE_COUNT,
                i <= count,
                options@.len() == i,
                forall|j: int| 0 <= j < i ==> (#[trigger] options@[j]).value == j + 2,
                forall|j: int|
                    0 <= j < i ==> (#[trigger] options@[j]).label@ == spec_example_name(j),
            decreases count - i,
        {
            if let Some(name) = example_name(i) {
                options.push(program_option(i, name));
            } else {
                proof {
                    assert(false);
                }
            }
            i = i + 1;
        }
        SelectView {
            disabled: self.disabled,
            placeholder: String::from_str("Load a program"),
            options,
        }
    }
}

} // verus!
