//! The menu tree and the state of walking through it.

use vstd::prelude::*;

use crate::text::{same_text, text_of};

verus! {

/// A node of the menu: an entry that acts when clicked, or a submenu.
pub struct MenuList {
    name: &'static str,
    children: Option<Vec<MenuList>>,
}

impl MenuList {
    /// The characters of the node's name.
    pub closed spec fn spec_name(&self) -> Seq<char> {
        self.name@
    }

    /// The entries of a submenu, in order; `None` for an entry that acts.
    pub closed spec fn spec_children(&self) -> Option<Seq<MenuList>> {
        match self.children {
            Some(children) => Some(children@),
            None => None,
        }
    }

    /// Whether the node is an entry named `name` that acts.
    pub open spec fn is_entry(&self, name: Seq<char>) -> bool {
        self.spec_name() == name && self.spec_children() is None
    }

    /// Whether the node is the menu of the application: "Menu" with the
    /// submenu "Files..." of four entries and the entry "Quit application".
    pub open spec fn is_main_menu(&self) -> bool {
        &&& self.spec_name() == "Menu"@
        &&& self.spec_children() matches Some(top)
        &&& top.len() == 2
        &&& top[0].spec_name() == "Files..."@
        &&& top[0].spec_children() matches Some(files)
        &&& files.len() == 4
        &&& files[0].is_entry("...Go back"@)
        &&& files[1].is_entry("Open database"@)
        &&& files[2].is_entry("Save database"@)
        &&& files[3].is_entry("Close database"@)
        &&& top[1].is_entry("Quit application"@)
    }

    /// The node's name.
    pub fn get_name(&self) -> (name: &'static str)
        ensures
            name@ == self.spec_name(),
    {
        self.name
    }

    /// Whether the node is an entry that acts, not a submenu.
    pub fn is_final(&self) -> (is_final: bool)
        ensures
            is_final == (self.spec_children() is None),
    {
        self.children.is_none()
    }

    /// An entry that acts.
    pub fn generate_final(name: &'static str) -> (node: Self)
        ensures
            node.is_entry(name@),
    {
        Self { name, children: None }
    }

    /// A submenu of the given entries.
    pub fn generate_non_final(name: &'static str, children: Vec<MenuList>) -> (node: Self)
        ensures
            node.spec_name() == name@,
            node.spec_children() == Some(children@),
    {
        Self { name, children: Some(children) }
    }

    /// The number of entries of a submenu; `None` for an entry that acts.
    pub fn child_number(&self) -> (number: Option<usize>)
        ensures
            match self.spec_children() {
                Some(children) => children.len() <= usize::MAX && number == Some(
                    children.len() as usize,
                ),
                None => number is None,
            },
    {
        broadcast use vstd::std_specs::vec::axiom_spec_len;

        if let Some(children) = &self.children {
            Some(children.len())
        } else {
            None
        }
    }

    /// The entry at position `index` of a submenu.
    pub fn child(&self, index: usize) -> (found: Option<&MenuList>)
        ensures
            match self.spec_children() {
                Some(children) => children.len() <= usize::MAX && if index < children.len() {
                    found == Some(&children[index as int])
                } else {
                    found is None
                },
                None => found is None,
            },
    {
        broadcast use vstd::std_specs::vec::axiom_spec_len;

        match &self.children {
            Some(children) => if index < children.len() {
                Some(&children[index])
            } else {
                None
            },
            None => None,
        }
    }

    /// The menu of the application.
    pub fn new() -> (menu: Self)
        ensures
            menu.is_main_menu(),
    {
        let mut files: Vec<MenuList> = Vec::new();
        files.push(MenuList::generate_final("...Go back"));
        files.push(MenuList::generate_final("Open database"));
        files.push(MenuList::generate_final("Save database"));
        files.push(MenuList::generate_final("Close database"));
        let mut top: Vec<MenuList> = Vec::new();
        top.push(MenuList::generate_non_final("Files...", files));
        top.push(MenuList::generate_final("Quit application"));
        MenuList::generate_non_final("Menu", top)
    }
}

/// What a click on the menu asks the application to do.
#[derive(Clone, Copy, Debug, PartialEq, Eq, Structural)]
pub enum MenuActions {
    /// Nothing but to draw the menu again.
    Tick,
    OpenDatabase,
    SaveDatabase,
    CloseDatabase,
    QuitApp,
}

/// The text of the error for a name that no action has.
pub open spec fn unknown_action_text(name: Seq<char>) -> Seq<char> {
    "Unable to parse "@ + name + " into MenuActions."@
}

impl MenuActions {
    /// The action that an entry named `name` asks for, if any.
    pub open spec fn spec_from_name(name: Seq<char>) -> Option<MenuActions> {
        if name == "Open database"@ {
            Some(MenuActions::OpenDatabase)
        } else if name == "Save database"@ {
            Some(MenuActions::SaveDatabase)
        } else if name == "Close database"@ {
            Some(MenuActions::CloseDatabase)
        } else if name == "Quit application"@ {
            Some(MenuActions::QuitApp)
        } else {
            None
        }
    }

    /// The action that an entry named `name` asks for, or a text that says
    /// that there is none.
    pub fn from_name(name: &str) -> (found: Result<MenuActions, String>)
        ensures
            found matches Ok(action) ==> Self::spec_from_name(name@) == Some(action),
            found matches Err(text) ==> Self::spec_from_name(name@) is None && text@
                == unknown_action_text(name@),
    {
        if same_text(name, "Open database") {
            Ok(MenuActions::OpenDatabase)
        } else if same_text(name, "Save database") {
            Ok(MenuActions::SaveDatabase)
        } else if same_text(name, "Close database") {
            Ok(MenuActions::CloseDatabase)
        } else if same_text(name, "Quit application") {
            Ok(MenuActions::QuitApp)
        } else {
            Err(crate::text::joined("Unable to parse ", name, " into MenuActions."))
        }
    }
}

impl std::str::FromStr for MenuActions {
    type Err = String;

    /// Reads an action from the name of its entry, as [`Self::from_name`]
    /// does.
    fn from_str(s: &str) -> (found: Result<Self, Self::Err>)
        ensures
            found matches Ok(action) ==> Self::spec_from_name(s@) == Some(action),
            found matches Err(text) ==> Self::spec_from_name(s@) is None && text@
                == unknown_action_text(s@),
    {
        Self::from_name(s)
    }
}

/// The node that the walk `path` from `list` ends at: every number of the
/// path is the position of the entry to go down by.
pub open spec fn level_at(list: MenuList, path: Seq<usize>) -> MenuList
    decreases path.len(),
{
    if path.len() == 0 {
        list
    } else {
        match list.spec_children() {
            Some(children) => level_at(children[path[0] as int], path.skip(1)),
            None => list,
        }
    }
}

/// Whether `path` is a walk in `list`: every step goes down by an entry
/// that the submenu it is taken in has.
pub open spec fn is_walk(list: MenuList, path: Seq<usize>) -> bool
    decreases path.len(),
{
    path.len() == 0 || match list.spec_children() {
        Some(children) => path[0] < children.len() && is_walk(
            children[path[0] as int],
            path.skip(1),
        ),
        None => false,
    }
}

/// A walk with one more step is the walk, then the step.
proof fn lemma_walk_on(list: MenuList, path: Seq<usize>, step: usize)
    requires
        is_walk(list, path),
        level_at(list, path).spec_children() matches Some(children) && step < children.len(),
    ensures
        is_walk(list, path.push(step)),
        level_at(list, path.push(step)) == level_at(list, path).spec_children()->0[step as int],
    decreases path.len(),
{
    let longer = path.push(step);
    if path.len() == 0 {
        let children = list.spec_children()->0;
        assert(longer.skip(1) =~= Seq::<usize>::empty());
        assert(longer[0] == step);
        assert(level_at(list, path) == list);
        assert(level_at(children[step as int], longer.skip(1)) == children[step as int]);
        assert(is_walk(children[step as int], longer.skip(1)));
    } else {
        let children = list.spec_children()->0;
        let below = children[path[0] as int];
        assert(longer.skip(1) =~= path.skip(1).push(step));
        assert(longer[0] == path[0]);
        assert(level_at(list, path) == level_at(below, path.skip(1)));
        lemma_walk_on(below, path.skip(1), step);
        assert(level_at(list, longer) == level_at(below, longer.skip(1)));
    }
}

/// A walk without its last step is a walk, and that step was taken in a
/// submenu that has the entry.
proof fn lemma_walk_back(list: MenuList, path: Seq<usize>)
    requires
        is_walk(list, path),
        path.len() > 0,
    ensures
        is_walk(list, path.drop_last()),
        level_at(list, path.drop_last()).spec_children() matches Some(children) && path.last()
            < children.len() && level_at(list, path) == children[path.last() as int],
    decreases path.len(),
{
    let shorter = path.drop_last();
    let children = list.spec_children()->0;
    let below = children[path[0] as int];
    if path.len() == 1 {
        assert(path.skip(1) =~= Seq::<usize>::empty());
        assert(shorter =~= Seq::<usize>::empty());
        assert(level_at(below, path.skip(1)) == below);
        assert(level_at(list, shorter) == list);
    } else {
        assert(shorter.skip(1) =~= path.skip(1).drop_last());
        assert(shorter[0] == path[0]);
        assert(path.skip(1).last() == path.last());
        lemma_walk_back(below, path.skip(1));
        assert(level_at(list, shorter) == level_at(below, shorter.skip(1)));
        assert(level_at(list, path) == level_at(below, path.skip(1)));
    }
}

/// Where a user is in the menu: the submenu shown, the way that led there
/// and the entry that the user has the cursor on.
pub struct MainMenu {
    list: MenuList,
    list_state: Option<usize>,
    depth: Vec<usize>,
}

impl MainMenu {
    /// What holds of every menu state: the menu is the application's, the
    /// way leads down the menu to a submenu that has an entry, and the
    /// cursor, if it is set, is on one of that submenu's entries.
    pub closed spec fn inv(&self) -> bool {
        &&& self.list.is_main_menu()
        &&& is_walk(self.list, self.depth@)
        &&& level_at(self.list, self.depth@).spec_children() matches Some(entries)
        &&& entries.len() > 0
        &&& self.list_state matches Some(index) ==> index < entries.len()
    }

    /// The whole menu.
    pub closed spec fn spec_list(&self) -> MenuList {
        self.list
    }

    /// The way from the top of the menu to the submenu shown: the position
    /// of the entry gone down by, for every submenu passed.
    pub closed spec fn spec_depth(&self) -> Seq<usize> {
        self.depth@
    }

    /// The position of the entry that the cursor is on, if it is set.
    pub closed spec fn spec_selected(&self) -> Option<usize> {
        self.list_state
    }

    /// The submenu shown.
    pub open spec fn spec_level(&self) -> MenuList {
        level_at(self.spec_list(), self.spec_depth())
    }

    /// The entries of the submenu shown.
    pub open spec fn spec_entries(&self) -> Seq<MenuList> {
        self.spec_level().spec_children()->0
    }

    /// The entry that the cursor is on.
    pub open spec fn spec_target(&self) -> MenuList {
        self.spec_entries()[self.spec_selected()->0 as int]
    }

    /// Whether a step down by the entry under the cursor leads to a submenu
    /// that has an entry.
    pub open spec fn can_go_deeper(&self) -> bool {
        self.spec_target().spec_children() matches Some(entries) && entries.len() > 0
    }

    /// The way and the cursor that a step down by the entry under the
    /// cursor leaves: one step more and the cursor on the first entry where
    /// that entry is a submenu with an entry, and what they were otherwise.
    pub open spec fn after_deeper(&self) -> (Seq<usize>, Option<usize>) {
        if self.can_go_deeper() {
            (self.spec_depth().push(self.spec_selected()->0), Some(0usize))
        } else {
            (self.spec_depth(), self.spec_selected())
        }
    }

    /// The way and the cursor that a step back up leaves: the way without
    /// its last step and the cursor on the entry of that step, and at the
    /// top of the menu what they were.
    pub open spec fn after_shallow(&self) -> (Seq<usize>, Option<usize>) {
        if self.spec_depth().len() > 0 {
            (self.spec_depth().drop_last(), Some(self.spec_depth().last()))
        } else {
            (self.spec_depth(), self.spec_selected())
        }
    }

    /// The way and the cursor that a click on the entry under the cursor
    /// leaves: those of a step down for "Files...", those of a step back up
    /// for "...Go back", and what they were for any other entry.
    pub open spec fn after_click(&self) -> (Seq<usize>, Option<usize>) {
        let name = self.spec_target().spec_name();
        if name == "Files..."@ {
            self.after_deeper()
        } else if name == "...Go back"@ {
            self.after_shallow()
        } else {
            (self.spec_depth(), self.spec_selected())
        }
    }

    /// The top of the application's menu, with the cursor not set.
    pub fn new() -> (menu: Self)
        ensures
            menu.inv(),
            menu.spec_list().is_main_menu(),
            menu.spec_depth() == Seq::<usize>::empty(),
            menu.spec_selected() is None,
    {
        MainMenu { list: MenuList::new(), list_state: None, depth: Vec::new() }
    }

    fn level(&self) -> (node: &MenuList)
        requires
            self.inv(),
        ensures
            *node == self.spec_level(),
    {
        let mut node = &self.list;
        let mut i: usize = 0;
        assert(self.depth@.skip(0) =~= self.depth@);
        while i < self.depth.len()
            invariant
                self.inv(),
                i <= self.depth@.len(),
                is_walk(*node, self.depth@.skip(i as int)),
                level_at(*node, self.depth@.skip(i as int)) == level_at(self.list, self.depth@),
            decreases self.depth@.len() - i,
        {
            let step = self.depth[i];
            assert(self.depth@.skip(i as int)[0] == step);
            assert(self.depth@.skip(i as int).skip(1) =~= self.depth@.skip(i + 1));
            node = match node.child(step) {
                Some(entry) => entry,
                None => node,
            };
            i += 1;
        }
        assert(self.depth@.skip(i as int) =~= Seq::<usize>::empty());
        node
    }

    /// The name of the submenu shown.
    pub fn title(&self) -> (title: &'static str)
        requires
            self.inv(),
        ensures
            title@ == self.spec_level().spec_name(),
    {
        self.level().get_name()
    }

    /// The names of the entries of the submenu shown, in order.
    pub fn positions(&self) -> (names: Vec<&'static str>)
        requires
            self.inv(),
        ensures
            names@.len() == self.spec_entries().len(),
            forall|i: int|
                0 <= i < names@.len() ==> (#[trigger] names@[i])@ == self.spec_entries()[i].spec_name(),
    {
        let level = self.level();
        let mut names: Vec<&'static str> = Vec::new();
        let mut i: usize = 0;
        loop
            invariant
                self.inv(),
                *level == self.spec_level(),
                self.spec_level().spec_children() is Some,
                i <= self.spec_entries().len(),
                names@.len() == i,
                forall|j: int|
                    0 <= j < i ==> (#[trigger] names@[j])@ == self.spec_entries()[j].spec_name(),
            ensures
                i == self.spec_entries().len(),
            decreases self.spec_entries().len() - i,
        {
            match level.child(i) {
                Some(entry) => {
                    names.push(entry.get_name());
                },
                None => {
                    break ;
                },
            }
            i += 1;
        }
        names
    }

    /// The position of the entry that the cursor is on, if it is set.
    pub fn selected(&self) -> (selected: Option<usize>)
        requires
            self.inv(),
        ensures
            selected == self.spec_selected(),
            selected matches Some(index) ==> index < self.spec_entries().len(),
    {
        self.list_state
    }

    fn entry_number(&self) -> (number: usize)
        requires
            self.inv(),
        ensures
            number == self.spec_entries().len(),
            number > 0,
    {
        match self.level().child_number() {
            Some(number) => number,
            None => 1,
        }
    }

    /// Moves the cursor to the next entry, and from the last entry to the
    /// first. A cursor that is not set counts as being on the first entry.
    pub fn next(&mut self)
        requires
            old(self).inv(),
        ensures
            final(self).inv(),
            final(self).spec_list() == old(self).spec_list(),
            final(self).spec_depth() == old(self).spec_depth(),
            final(self).spec_selected() == Some(
                {
                    let index = match old(self).spec_selected() {
                        Some(index) => index,
                        None => 0,
                    };
                    if index + 1 >= old(self).spec_entries().len() {
                        0usize
                    } else {
                        (index + 1) as usize
                    }
                },
            ),
    {
        let mut index = match self.list_state {
            Some(index) => index,
            None => 0,
        };
        let children = self.entry_number();
        if index + 1 >= children {
            index = 0;
        } else {
            index += 1;
        }
        self.list_state = Some(index);
    }

    /// Moves the cursor to the entry before, and from the first entry to
    /// the last. A cursor that is not set counts as being on the first
    /// entry.
    pub fn previous(&mut self)
        requires
            old(self).inv(),
        ensures
            final(self).inv(),
            final(self).spec_list() == old(self).spec_list(),
            final(self).spec_depth() == old(self).spec_depth(),
            final(self).spec_selected() == Some(
                {
                    let index = match old(self).spec_selected() {
                        Some(index) => index,
                        None => 0,
                    };
                    if index == 0 {
                        (old(self).spec_entries().len() - 1) as usize
                    } else {
                        (index - 1) as usize
                    }
                },
            ),
    {
        let mut index = match self.list_state {
            Some(index) => index,
            None => 0,
        };
        let children = self.entry_number();
        if index == 0 {
            index = children - 1;
        } else {
            index -= 1;
        }
        self.list_state = Some(index);
    }

    /// Goes down by the entry under the cursor, where that is a submenu
    /// with an entry, and sets the cursor on its first entry. Any other
    /// entry leaves the state as it is.
    pub fn deeper(&mut self)
        requires
            old(self).inv(),
            old(self).spec_selected() is Some,
        ensures
            final(self).inv(),
            final(self).spec_list() == old(self).spec_list(),
            final(self).spec_depth() == old(self).after_deeper().0,
            final(self).spec_selected() == old(self).after_deeper().1,
            old(self).can_go_deeper() ==> final(self).spec_level() == old(self).spec_target(),
    {
        let target = match self.list_state {
            Some(target) => target,
            None => {
                return ;
            },
        };
        let enter = match self.level().child(target) {
            Some(entry) => match entry.child_number() {
                Some(number) => number > 0,
                None => false,
            },
            None => false,
        };
        if !enter {
            return ;
        }
        proof {
            lemma_walk_on(self.list, self.depth@, target);
        }
        self.depth.push(target);
        self.list_state = Some(0);
    }

    /// Goes back up to the submenu that the one shown was entered from, and
    /// sets the cursor on the entry it was entered by. At the top of the
    /// menu the state stays as it is.
    pub fn shallow(&mut self)
        requires
            old(self).inv(),
        ensures
            final(self).inv(),
            final(self).spec_list() == old(self).spec_list(),
            final(self).spec_depth() == old(self).after_shallow().0,
            final(self).spec_selected() == old(self).after_shallow().1,
    {
        proof {
            if self.depth@.len() > 0 {
                lemma_walk_back(self.list, self.depth@);
            }
        }
        match self.depth.pop() {
            Some(index) => {
                self.list_state = Some(index);
            },
            None => {},
        }
    }

    /// In the application's menu every entry but "Files..." and
    /// "...Go back" has an action.
    pub proof fn lemma_entries_act(&self, index: int)
        requires
            self.inv(),
            0 <= index < self.spec_entries().len(),
        ensures
            ({
                let name = self.spec_entries()[index].spec_name();
                name == "Files..."@ || name == "...Go back"@ || MenuActions::spec_from_name(name)
                    is Some
            }),
    {
        let top = self.list.spec_children()->0;
        let files = top[0].spec_children()->0;
        let path = self.depth@;
        if path.len() > 0 {
            let rest = path.skip(1);
            assert(path[0] < top.len() && is_walk(top[path[0] as int], rest));
            assert(level_at(self.list, path) == level_at(top[path[0] as int], rest));
            if path[0] == 0 {
                if rest.len() > 0 {
                    let entry = files[rest[0] as int];
                    assert(rest[0] < files.len() && is_walk(entry, rest.skip(1)));
                    assert(entry.spec_children() is None);
                    assert(rest.skip(1).len() == 0);
                    assert(level_at(entry, rest.skip(1)) == entry);
                    assert(level_at(top[0], rest) == entry);
                    assert(false);
                }
                assert(level_at(top[0], rest) == top[0]);
            } else {
                assert(path[0] == 1);
                assert(rest.len() == 0);
                assert(level_at(top[1], rest) == top[1]);
                assert(false);
            }
        }
    }

    /// What a click on the entry under the cursor does. "Files..." is gone
    /// down by and "...Go back" goes back up, both with a `Tick`; any other
    /// entry asks for its action and leaves the state as it is.
    pub fn clicked(&mut self) -> (action: MenuActions)
        requires
            old(self).inv(),
            old(self).spec_selected() is Some,
        ensures
            final(self).inv(),
            final(self).spec_list() == old(self).spec_list(),
            action == clicked_action(old(self).spec_target().spec_name()),
            action == MenuActions::Tick <==> old(self).spec_target().spec_name() == "Files..."@
                || old(self).spec_target().spec_name() == "...Go back"@,
            (final(self).spec_depth(), final(self).spec_selected()) == old(self).after_click(),
    {
        let target = match self.list_state {
            Some(target) => target,
            None => {
                return MenuActions::Tick;
            },
        };
        proof {
            self.lemma_entries_act(target as int);
        }
        let target_name = match self.level().child(target) {
            Some(entry) => entry.get_name(),
            None => {
                return MenuActions::Tick;
            },
        };
        if same_text(target_name, "Files...") {
            self.deeper();
            MenuActions::Tick
        } else if same_text(target_name, "...Go back") {
            self.shallow();
            MenuActions::Tick
        } else {
            match MenuActions::from_name(target_name) {
                Ok(action) => action,
                Err(_) => MenuActions::Tick,
            }
        }
    }
}

/// The action that a click on an entry named `name` comes back with.
pub open spec fn clicked_action(name: Seq<char>) -> MenuActions {
    if name == "Files..."@ || name == "...Go back"@ {
        MenuActions::Tick
    } else {
        match MenuActions::spec_from_name(name) {
            Some(action) => action,
            None => MenuActions::Tick,
        }
    }
}

} // verus!
