//! The interactive-selection capability, modeled as a finite script of menu
//! selections. The unverified front end obtains one choice at a time from
//! the user and hands it in; tests supply several selections up front.

use vstd::prelude::*;

use crate::git::GitError;

verus! {

/// A finite script of menu selections, consumed in order. Running out of
/// selections is the fatal "no selection was made" outcome.
pub struct PromptScript {
    selections: Vec<usize>,
    next: usize,
}

impl PromptScript {
    /// The selections not yet consumed, next first.
    pub closed spec fn pending(&self) -> Seq<usize> {
        self.selections@.skip(self.next as int)
    }

    /// The cursor never passes the end of the script.
    pub closed spec fn wf(&self) -> bool {
        self.next <= self.selections@.len()
    }

    /// A script that will answer the next prompts with `selections`, in
    /// order.
    pub fn new(selections: Vec<usize>) -> (r: PromptScript)
        ensures
            r.wf(),
            r.pending() == selections@,
    {
        let r = PromptScript { selections, next: 0 };
        proof {
            assert(r.pending() =~= r.selections@);
        }
        r
    }

    /// How many selections are still pending.
    pub fn remaining(&self) -> (r: usize)
        requires
            self.wf(),
        ensures
            r == self.pending().len(),
    {
        self.selections.len() - self.next
    }

    /// Answers a prompt from the script: the next selection, or the fatal
    /// no-selection error once the script is exhausted. The prompt text and
    /// option labels only describe the menu to the user.
    pub fn select(&mut self, _prompt: &str, _options: &Vec<String>) -> (r: Result<
        usize,
        GitError,
    >)
        requires
            old(self).wf(),
        ensures
            final(self).wf(),
            old(self).pending().len() == 0 ==> r == Err::<usize, GitError>(
                GitError::NoSelectionsRemaining,
            ) && final(self).pending() == old(self).pending(),
            old(self).pending().len() > 0 ==> r == Ok::<usize, GitError>(
                old(self).pending()[0],
            ) && final(self).pending() == old(self).pending().drop_first(),
    {
        if self.next >= self.selections.len() {
            Err(GitError::NoSelectionsRemaining)
        } else {
            let choice = self.selections[self.next];
            self.next = self.next + 1;
            proof {
                assert(self.pending() =~= old(self).pending().drop_first());
            }
            Ok(choice)
        }
    }
}

/// One selectable menu entry: a caller-chosen identifier and the label shown
/// for it.
pub struct Choice<T> {
    identifier: T,
    label: String,
}

impl<T> Choice<T> {
    /// The entry's identifier.
    pub closed spec fn spec_identifier(&self) -> T {
        self.identifier
    }

    /// The entry's label.
    pub closed spec fn spec_label(&self) -> Seq<char> {
        self.label@
    }

    /// A menu entry with the given identifier and label.
    pub fn new(identifier: T, label: String) -> (r: Choice<T>)
        ensures
            r.spec_identifier() == identifier,
            r.spec_label() == label@,
    {
        Choice { identifier, label }
    }

    /// The entry's identifier.
    pub fn identifier(&self) -> (r: &T)
        ensures
            *r == self.spec_identifier(),
    {
        &self.identifier
    }

    /// The entry's label.
    pub fn label(&self) -> (r: &String)
        ensures
            r@ == self.spec_label(),
    {
        &self.label
    }
}

/// The front end that presents menus to a person. Presenting is input and
/// output, so it lives outside the verified core; this type is the handle
/// the workflow passes around for it.
#[derive(Clone, Default)]
pub struct UserInterface;

impl UserInterface {
    /// A fresh handle.
    pub fn new() -> (r: UserInterface) {
        UserInterface
    }
}

} // verus!
