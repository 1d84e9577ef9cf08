//! The styling state that every widget carries: its CSS class list and its
//! interaction state flags.
use vstd::prelude::*;

verus! {

/// Interaction state of a widget, as seen by CSS pseudo-classes.
#[derive(Debug, Clone, Copy, PartialEq, Eq, Structural)]
pub struct WidgetState {
    pub hovered: bool,
    pub pressed: bool,
    pub focused: bool,
    pub disabled: bool,
    pub checked: bool,
}

/// The state with every flag cleared.
pub open spec fn cleared_state() -> WidgetState {
    WidgetState { hovered: false, pressed: false, focused: false, disabled: false, checked: false }
}

impl WidgetState {
    /// A state with every flag cleared.
    pub fn new() -> (r: Self)
        ensures
            r == cleared_state(),
    {
        WidgetState { hovered: false, pressed: false, focused: false, disabled: false, checked: false }
    }
}

impl Default for WidgetState {
    fn default() -> (r: Self)
        ensures
            r == cleared_state(),
    {
        WidgetState::new()
    }
}

/// An ordered list of CSS class names without repetitions.
#[derive(Debug)]
pub struct ClassList {
    classes: Vec<String>,
}

/// `s` holds no name twice.
pub open spec fn no_repeats(s: Seq<Seq<char>>) -> bool {
    forall|i: int, j: int| 0 <= i < s.len() && 0 <= j < s.len() && i != j ==> s[i] != s[j]
}

/// The list after adding `c`: unchanged if `c` is present, else `c` appended.
pub open spec fn added(s: Seq<Seq<char>>, c: Seq<char>) -> Seq<Seq<char>> {
    if s.contains(c) { s } else { s.push(c) }
}

impl View for ClassList {
    type V = Seq<Seq<char>>;

    closed spec fn view(&self) -> Seq<Seq<char>> {
        self.classes@.map_values(|c: String| c@)
    }
}

impl ClassList {
    /// The list's names hold no repetition.
    pub closed spec fn wf(&self) -> bool {
        no_repeats(self@)
    }

    /// An empty class list.
    pub fn new() -> (r: Self)
        ensures
            r@ == Seq::<Seq<char>>::empty(),
            r.wf(),
    {
        let r = ClassList { classes: Vec::new() };
        assert(r@ =~= Seq::<Seq<char>>::empty());
        r
    }

    /// Whether the list holds `class`.
    pub fn contains(&self, class: &str) -> (r: bool)
        ensures
            r == self@.contains(class@),
    {
        let mut i: usize = 0;
        while i < self.classes.len()
            invariant
                i <= self.classes.len(),
                self@ == self.classes@.map_values(|c: String| c@),
                forall|j: int| 0 <= j < i ==> self@[j] != class@,
            decreases self.classes.len() - i,
        {
            if crate::text::str_eq(self.classes[i].as_str(), class) {
                assert(self@[i as int] == class@);
                return true;
            }
            i = i + 1;
        }
        false
    }

    /// Adds `class` at the end unless the list already holds it.
    pub fn add(&mut self, class: &str)
        ensures
            final(self)@ == added(old(self)@, class@),
            old(self).wf() ==> final(self).wf(),
    {
        if !self.contains(class) {
            let ghost before = self@;
            self.classes.push(crate::text::owned(class));
            assert(self@ =~= before.push(class@));
        }
    }

    /// The number of class names.
    pub fn len(&self) -> (r: usize)
        ensures
            r == self@.len(),
    {
        self.classes.len()
    }

    /// The class name at `index`.
    pub fn get(&self, index: usize) -> (r: &str)
        requires
            index < self@.len(),
        ensures
            r@ == self@[index as int],
    {
        self.classes[index].as_str()
    }
}

/// Adding a class that is already present leaves the list unchanged, and
/// adding the same class twice has the effect of adding it once.
pub proof fn lemma_add_idempotent(s: Seq<Seq<char>>, c: Seq<char>)
    ensures
        added(added(s, c), c) == added(s, c),
        added(s, c).contains(c),
{
    if !s.contains(c) {
        assert(s.push(c)[s.len() as int] == c);
    }
}

/// Adding a class keeps every class that was there, in the same order.
pub proof fn lemma_add_keeps_order(s: Seq<Seq<char>>, c: Seq<char>)
    ensures
        is_prefix_list(s, added(s, c)),
{
}

/// `p` is a prefix of `s`.
pub open spec fn is_prefix_list(p: Seq<Seq<char>>, s: Seq<Seq<char>>) -> bool {
    p.len() <= s.len() && forall|i: int| 0 <= i < p.len() ==> s[i] == p[i]
}

} // verus!
