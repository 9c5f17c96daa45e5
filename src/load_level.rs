//! The load screen and taking a level read from a file.

use vstd::prelude::*;
use crate::context::Context;
use crate::level::Level;
use crate::text::{all_alnum, append_chars, lower_char, to_lower, MAX_NAME_LEN};
use crate::types::{Event, Keycode, Mode};

verus! {

pub open spec fn lower_seq(s: Seq<char>) -> Seq<char> {
    s.map_values(|c: char| lower_char(c))
}

/// Whether a file name ends in the level extension, in any case.
pub open spec fn is_level_file_name(name: Seq<char>) -> bool {
    name.len() >= 4 && lower_seq(name.subrange(name.len() - 4, name.len() as int)) == seq!['.', 'l', 'e', 'v']
}

/// The level files among `names`, in their order.
pub open spec fn level_files(names: Seq<Seq<char>>) -> Seq<Seq<char>>
    decreases names.len(),
{
    if names.len() == 0 {
        Seq::empty()
    } else {
        let rest = level_files(names.drop_last());
        if is_level_file_name(names.last()) {
            rest.push(names.last())
        } else {
            rest
        }
    }
}

pub open spec fn views(v: Seq<Vec<char>>) -> Seq<Seq<char>> {
    v.map_values(|x: Vec<char>| x@)
}

/// The name a loaded file is saved under again: the file name without its
/// extension, where that is a name the save prompt accepts; else none.
pub open spec fn save_name_of(file: Seq<char>) -> Seq<char> {
    let stem = file.subrange(0, file.len() - 4);
    if is_level_file_name(file) && all_alnum(stem) && stem.len() <= MAX_NAME_LEN {
        stem
    } else {
        Seq::empty()
    }
}

fn copy_chars(v: &Vec<char>) -> (r: Vec<char>)
    ensures
        r@ == v@,
{
    let mut r: Vec<char> = Vec::new();
    append_chars(&mut r, v);
    assert(r@ =~= v@);
    r
}

/// Whether a file name ends in the level extension, in any case.
pub fn is_level_file(name: &Vec<char>) -> (r: bool)
    ensures
        r == is_level_file_name(name@),
{
    let n = name.len();
    if n < 4 {
        return false;
    }
    let ext = vec!['.', 'l', 'e', 'v'];
    let mut i: usize = 0;
    while i < 4
        invariant
            n == name@.len(),
            n >= 4,
            ext@ == seq!['.', 'l', 'e', 'v'],
            i <= 4,
            forall|j: int| 0 <= j < i ==> lower_char(#[trigger] name@[n - 4 + j]) == ext@[j],
        decreases 4 - i,
    {
        let c = name[n - 4 + i];
        let l = if 'A' <= c && c <= 'Z' { ((c as u8) + 32) as char } else { c };
        if l != ext[i] {
            assert(lower_seq(name@.subrange(n - 4, n as int))[i as int] != seq!['.', 'l', 'e', 'v'][i as int]);
            return false;
        }
        i = i + 1;
    }
    let ghost l = lower_seq(name@.subrange(n - 4, n as int));
    assert forall|j: int| 0 <= j < 4 implies l[j] == ext@[j] by {
        assert(l[j] == lower_char(name@[n - 4 + j]));
    }
    assert(l =~= ext@);
    true
}

fn is_alnum_name(s: &Vec<char>, end: usize) -> (r: bool)
    requires
        end <= s@.len(),
    ensures
        r == all_alnum(s@.subrange(0, end as int)),
{
    let mut i: usize = 0;
    while i < end
        invariant
            end <= s@.len(),
            i <= end,
            forall|j: int| 0 <= j < i ==> crate::text::is_alnum(#[trigger] s@[j]),
        decreases end - i,
    {
        let c = s[i];
        if !(('0' <= c && c <= '9') || ('a' <= c && c <= 'z') || ('A' <= c && c <= 'Z')) {
            assert(!crate::text::is_alnum(s@.subrange(0, end as int)[i as int]));
            return false;
        }
        i = i + 1;
    }
    true
}

/// The name a loaded file is saved under again.
pub fn get_save_name(file: &Vec<char>) -> (r: Vec<char>)
    ensures
        r@ == save_name_of(file@),
{
    let mut r: Vec<char> = Vec::new();
    if is_level_file(file) {
        let end = file.len() - 4;
        if end <= MAX_NAME_LEN && is_alnum_name(file, end) {
            let mut i: usize = 0;
            while i < end
                invariant
                    end <= file@.len(),
                    i <= end,
                    r@ == file@.subrange(0, i as int),
                decreases end - i,
            {
                r.push(file[i]);
                i = i + 1;
                assert(r@ =~= file@.subrange(0, i as int));
            }
            return r;
        }
    }
    assert(r@ =~= Seq::<char>::empty());
    r
}

/// What one event does on the load screen.
pub open spec fn load_level_step(
    s0: LoadLevelState,
    c0: Context,
    event: Event,
    s1: LoadLevelState,
    c1: Context,
    r: Mode,
) -> bool {
    &&& s1.files == s0.files
    &&& ({
        let n = s0.files@.len();
        let i = s0.selected;
        match event {
            Event::Quit => r == Mode::Editor && c1 == c0 && s1.selected == i,
            Event::KeyDown { keycode } => if keycode == Keycode::Escape {
                r == Mode::Editor && c1 == c0 && s1.selected == i
            } else if keycode == Keycode::Down {
                r == Mode::LoadLevel && c1 == c0
                    && s1.selected == if i + 1 < n { i + 1 } else { i as int }
            } else if keycode == Keycode::Up {
                r == Mode::LoadLevel && c1 == c0
                    && s1.selected == if i > 0 { i - 1 } else { i as int }
            } else if keycode == Keycode::Return || keycode == Keycode::KpEnter {
                &&& r == Mode::Editor
                &&& s1.selected == i
                &&& if n > 0 {
                    &&& c1 == (Context { load_request: c1.load_request, ..c0 })
                    &&& (c1.load_request matches Some(f) && f@ == s0.files@[i as int]@)
                } else {
                    c1 == c0
                }
            } else {
                r == Mode::LoadLevel && c1 == c0 && s1.selected == i
            },
            _ => r == Mode::LoadLevel && c1 == c0 && s1.selected == i,
        }
    })
}

/// The load screen: lists the level files and asks for the one chosen.
#[derive(Debug)]
pub struct LoadLevelState {
    pub files: Vec<Vec<char>>,
    pub selected: usize,
}

impl LoadLevelState {
    pub open spec fn wf(&self) -> bool {
        self.files@.len() == 0 || self.selected < self.files@.len()
    }

    /// The screen for a directory holding the files `names`: the level
    /// files among them are listed, in their order.
    pub fn new(names: &Vec<Vec<char>>) -> (r: LoadLevelState)
        ensures
            r.wf(),
            r.selected == 0,
            views(r.files@) == level_files(views(names@)),
    {
        let mut files: Vec<Vec<char>> = Vec::new();
        let mut i: usize = 0;
        while i < names.len()
            invariant
                i <= names@.len(),
                views(files@) == level_files(views(names@).subrange(0, i as int)),
            decreases names@.len() - i,
        {
            let ghost prefix = views(names@).subrange(0, i as int);
            assert(views(names@).subrange(0, i + 1).drop_last() =~= prefix);
            assert(views(names@).subrange(0, i + 1).last() == names@[i as int]@);
            if is_level_file(&names[i]) {
                let ghost f0 = files@;
                files.push(copy_chars(&names[i]));
                assert(views(files@) =~= views(f0).push(names@[i as int]@));
            }
            i = i + 1;
        }
        assert(views(names@).subrange(0, names@.len() as int) =~= views(names@));
        LoadLevelState { files, selected: 0 }
    }

    /// Reacts to one input event; the result is the screen to show next.
    /// Enter asks for the file selected to be loaded.
    pub fn handle_event(&mut self, context: &mut Context, event: Event) -> (r: Mode)
        requires
            old(self).wf(),
            old(context).wf(),
        ensures
            final(self).wf(),
            final(context).wf(),
            load_level_step(
                *old(self),
                *old(context),
                event,
                *final(self),
                *final(context),
                r,
            ),
    {
        match event {
            Event::Quit => Mode::Editor,
            Event::KeyDown { keycode } => match keycode {
                Keycode::Escape => Mode::Editor,
                Keycode::Down => {
                    if self.files.len() > 0 && self.selected < self.files.len() - 1 {
                        self.selected = self.selected + 1;
                    }
                    Mode::LoadLevel
                },
                Keycode::Up => {
                    if self.selected > 0 {
                        self.selected = self.selected - 1;
                    }
                    Mode::LoadLevel
                },
                Keycode::Return | Keycode::KpEnter => {
                    if self.files.len() > 0 {
                        context.load_request = Some(copy_chars(&self.files[self.selected]));
                    }
                    Mode::Editor
                },
                _ => Mode::LoadLevel,
            },
            _ => Mode::LoadLevel,
        }
    }
}

impl Context {
    /// Takes the level read from the file `name`: the level replaces the
    /// one edited, with its view at the origin, its file name is shown in
    /// lower case, and the save prompt starts from the name without
    /// extension.
    pub fn apply_loaded_level(&mut self, name: &Vec<char>, level: Level)
        requires
            old(self).wf(),
            level.wf(),
        ensures
            final(self).wf(),
            *final(self) == (Context {
                level: Level { scroll: (0u32, 0u32), ..level },
                saved_level_name: final(self).saved_level_name,
                level_save_name: final(self).level_save_name,
                load_request: None,
                ..*old(self)
            }),
            (final(self).saved_level_name matches Some(d) && d@ == lower_seq(name@)),
            final(self).level_save_name@ == save_name_of(name@),
    {
        let save_name = get_save_name(name);
        let shown = to_lower(name);
        self.level = level;
        self.level.scroll = (0, 0);
        self.saved_level_name = Some(shown);
        self.level_save_name = save_name;
        self.load_request = None;
    }
}

} // verus!
