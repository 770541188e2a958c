use vstd::prelude::*;

verus! {

/// State of an expandable selection list: either expanded, showing every
/// entry, or collapsed, showing only the selected one.
pub struct ExpansionList {
    expanded: bool,
    selected: usize,
}

impl ExpansionList {
    pub closed spec fn is_expanded(&self) -> bool {
        self.expanded
    }

    pub closed spec fn selection(&self) -> usize {
        self.selected
    }

    /// Whether the list shows all of its entries.
    pub fn expanded(&self) -> (r: bool)
        ensures
            r == self.is_expanded(),
    {
        self.expanded
    }

    /// The index of the selected entry.
    pub fn selected(&self) -> (r: usize)
        ensures
            r == self.selection(),
    {
        self.selected
    }

    /// A click on the collapsed list opens it; the selection stays.
    pub fn open(&mut self)
        ensures
            final(self).is_expanded(),
            final(self).selection() == old(self).selection(),
    {
        self.expanded = true;
    }

    /// Applies what the user picked in the expanded list, if anything: a pick
    /// becomes the selection and collapses the list; no pick changes nothing.
    pub fn pick(&mut self, choice: Option<usize>)
        ensures
            match choice {
                Some(i) => !final(self).is_expanded() && final(self).selection() == i,
                None => final(self).is_expanded() == old(self).is_expanded()
                    && final(self).selection() == old(self).selection(),
            },
    {
        if let Some(i) = choice {
            self.selected = i;
            self.expanded = false;
        }
    }
}

impl Default for ExpansionList {
    /// A new list starts expanded, with the first entry selected.
    fn default() -> (r: ExpansionList)
        ensures
            r.is_expanded(),
            r.selection() == 0,
    {
        ExpansionList { expanded: true, selected: 0 }
    }
}

/// The entry that a frame's clicks select: the last clicked one, if any.
pub open spec fn last_clicked(clicks: Seq<bool>) -> Option<usize>
    decreases clicks.len(),
{
    if clicks.len() == 0 {
        None
    } else if clicks.last() {
        Some((clicks.len() - 1) as usize)
    } else {
        last_clicked(clicks.drop_last())
    }
}

/// Given which entry buttons were clicked this frame, in list order, returns
/// the index of the last clicked one, or `None` when none was.
pub fn selected_entry(clicks: &Vec<bool>) -> (r: Option<usize>)
    ensures
        r == last_clicked(clicks@),
        match r {
            Some(i) => i < clicks@.len() && clicks@[i as int]
                && forall|j: int| i < j < clicks@.len() ==> !clicks@[j],
            None => forall|j: int| 0 <= j < clicks@.len() ==> !clicks@[j],
        },
{
    let mut found: Option<usize> = None;
    let mut i: usize = 0;
    while i < clicks.len()
        invariant
            i <= clicks@.len(),
            found == last_clicked(clicks@.subrange(0, i as int)),
            match found {
                Some(k) => k < i && clicks@[k as int]
                    && forall|j: int| k < j < i ==> !clicks@[j],
                None => forall|j: int| 0 <= j < i ==> !clicks@[j],
            },
        decreases clicks@.len() - i,
    {
        assert(clicks@.subrange(0, i as int + 1).drop_last() =~= clicks@.subrange(0, i as int));
        if clicks[i] {
            found = Some(i);
        }
        i = i + 1;
    }
    assert(clicks@.subrange(0, clicks@.len() as int) =~= clicks@);
    found
}

/// State of a piece of interactive text: whether the pointer is over it.
pub struct InteractiveTextState {
    hovered: bool,
}

impl InteractiveTextState {
    pub closed spec fn is_hovered(&self) -> bool {
        self.hovered
    }

    /// Whether the pointer was over the text at the last frame.
    pub fn hovered(&self) -> (r: bool)
        ensures
            r == self.is_hovered(),
    {
        self.hovered
    }

    /// Records whether the pointer is over the text this frame.
    pub fn set_hovered(&mut self, hovered: bool)
        ensures
            final(self).is_hovered() == hovered,
    {
        self.hovered = hovered;
    }
}

impl Default for InteractiveTextState {
    /// Text starts with no pointer over it.
    fn default() -> (r: InteractiveTextState)
        ensures
            !r.is_hovered(),
    {
        InteractiveTextState { hovered: false }
    }
}

} // verus!
