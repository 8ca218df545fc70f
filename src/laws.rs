use vstd::prelude::*;

use crate::editor::{
    all_printable, chars_of, classify, enter_mode, enter_mode_actions, is_printable, reaction, run,
    step, Action, EditorMode, EditorView, Key,
};

verus! {

/// After any sequence of events exactly one mode is active.
pub proof fn lemma_mode_exclusive(s: EditorView, keys: Seq<Key>)
    ensures
        ({
            let m = run(s, keys).mode;
            &&& (m == EditorMode::Insert || m == EditorMode::Command || m == EditorMode::Cursor)
            &&& !(m == EditorMode::Insert && m == EditorMode::Command)
            &&& !(m == EditorMode::Insert && m == EditorMode::Cursor)
            &&& !(m == EditorMode::Command && m == EditorMode::Cursor)
        }),
{
}

/// Printable characters typed in insert mode go to the document, in order, and leave
/// the command line and the mode as they were.
pub proof fn lemma_insert_typing(s: EditorView, keys: Seq<Key>)
    requires
        s.mode == EditorMode::Insert,
        all_printable(keys),
    ensures
        run(s, keys).command == s.command,
        run(s, keys).text == s.text + chars_of(keys),
        run(s, keys).mode == EditorMode::Insert,
    decreases keys.len(),
{
    if keys.len() == 0 {
        assert(s.text + chars_of(keys) =~= s.text);
    } else {
        let t = step(s, keys[0]);
        assert(chars_of(keys.drop_first()) =~= chars_of(keys).drop_first());
        assert(all_printable(keys.drop_first())) by {
            assert forall|i: int| 0 <= i < keys.drop_first().len() implies (#[trigger] keys.drop_first()[i]) is Char
                && is_printable(keys.drop_first()[i]->Char_0) by {
                assert(keys.drop_first()[i] == keys[i + 1]);
            }
        }
        assert(keys[0] is Char && is_printable(keys[0]->Char_0));
        lemma_insert_typing(t, keys.drop_first());
        assert(t.text + chars_of(keys.drop_first()) =~= s.text + chars_of(keys));
    }
}

/// Printable characters typed in command mode go to the command line, in order, and
/// leave the document and the mode as they were.
pub proof fn lemma_command_typing(s: EditorView, keys: Seq<Key>)
    requires
        s.mode == EditorMode::Command,
        all_printable(keys),
    ensures
        run(s, keys).text == s.text,
        run(s, keys).command == s.command + chars_of(keys),
        run(s, keys).mode == EditorMode::Command,
    decreases keys.len(),
{
    if keys.len() == 0 {
        assert(s.command + chars_of(keys) =~= s.command);
    } else {
        let t = step(s, keys[0]);
        assert(chars_of(keys.drop_first()) =~= chars_of(keys).drop_first());
        assert(all_printable(keys.drop_first())) by {
            assert forall|i: int| 0 <= i < keys.drop_first().len() implies (#[trigger] keys.drop_first()[i]) is Char
                && is_printable(keys.drop_first()[i]->Char_0) by {
                assert(keys.drop_first()[i] == keys[i + 1]);
            }
        }
        assert(keys[0] is Char && is_printable(keys[0]->Char_0));
        lemma_command_typing(t, keys.drop_first());
        assert(t.command + chars_of(keys.drop_first()) =~= s.command + chars_of(keys));
    }
}

/// Escape in command mode, like any switch to command mode there, changes
/// nothing and makes no terminal call.
pub proof fn lemma_escape_idempotent(s: EditorView)
    requires
        s.mode == EditorMode::Command,
    ensures
        step(s, Key::Escape) == s,
        reaction(s, Key::Escape) == Seq::<Action>::empty(),
        enter_mode(s, EditorMode::Command) == s,
        enter_mode_actions(s, EditorMode::Command) == Seq::<Action>::empty(),
{
    assert(reaction(s, Key::Escape) =~= Seq::<Action>::empty());
}

/// A character that is not printable changes nothing and makes no terminal
/// call, in every mode; classifying a raw character never yields one.
pub proof fn lemma_non_printable_ignored(s: EditorView, c: char)
    requires
        !is_printable(c),
    ensures
        step(s, Key::Char(c)) == s,
        reaction(s, Key::Char(c)) == Seq::<Action>::empty(),
        classify(c) !is Char,
{
    assert(reaction(s, Key::Char(c)) =~= Seq::<Action>::empty());
}

/// Up moves the region's origin exactly one row up and puts the cursor one
/// row up, at column 0; the mode and both buffers stay as they were.
pub proof fn lemma_up_scrolls(s: EditorView)
    requires
        s.wf(),
        s.origin > 0,
        s.row > 0,
    ensures
        step(s, Key::Up).origin == s.origin - 1,
        step(s, Key::Up).row == s.row - 1,
        step(s, Key::Up).col == 0,
        step(s, Key::Up).mode == s.mode,
        step(s, Key::Up).text == s.text,
        step(s, Key::Up).command == s.command,
        reaction(s, Key::Up) == seq![
            Action::MoveOrigin { row: (s.origin - 1) as usize },
            Action::MoveCursor { row: (s.row - 1) as usize, col: 0 },
            Action::Refresh,
        ],
{
}

/// Escape from any other mode enters command mode with the cursor after the
/// prompt, and leaves both buffers as they were.
pub proof fn lemma_escape_enters_command(s: EditorView)
    requires
        s.wf(),
        s.mode != EditorMode::Command,
    ensures
        step(s, Key::Escape) == enter_mode(s, EditorMode::Command),
        step(s, Key::Escape).mode == EditorMode::Command,
        step(s, Key::Escape).row == s.height - 1,
        step(s, Key::Escape).col == if s.width > 1 { 1usize } else { 0usize },
        step(s, Key::Escape).text == s.text,
        step(s, Key::Escape).command == s.command,
{
}

/// One event keeps the cursor inside the content region.
pub proof fn lemma_step_keeps_cursor(s: EditorView, k: Key)
    requires
        s.wf(),
    ensures
        step(s, k).wf(),
        step(s, k).height == s.height,
        step(s, k).width == s.width,
{
}

/// After any sequence of events the cursor lies inside the content region.
pub proof fn lemma_cursor_bound(s: EditorView, keys: Seq<Key>)
    requires
        s.wf(),
    ensures
        run(s, keys).wf(),
        run(s, keys).height == s.height,
        run(s, keys).width == s.width,
    decreases keys.len(),
{
    if keys.len() > 0 {
        lemma_step_keeps_cursor(s, keys[0]);
        lemma_cursor_bound(step(s, keys[0]), keys.drop_first());
    }
}

/// No sequence of events shortens the document or the command line: what
/// was there stays, at the front.
pub proof fn lemma_append_only(s: EditorView, keys: Seq<Key>)
    ensures
        s.text.is_prefix_of(run(s, keys).text),
        s.command.is_prefix_of(run(s, keys).command),
    decreases keys.len(),
{
    if keys.len() == 0 {
        assert(s.text =~= s.text.subrange(0, s.text.len() as int));
        assert(s.command =~= s.command.subrange(0, s.command.len() as int));
    } else {
        let t = step(s, keys[0]);
        lemma_append_only(t, keys.drop_first());
        let e = run(s, keys);
        assert(s.text.is_prefix_of(t.text));
        assert(s.command.is_prefix_of(t.command));
        assert(s.text =~= e.text.subrange(0, s.text.len() as int)) by {
            assert forall|i: int| 0 <= i < s.text.len() implies s.text[i] == e.text[i] by {
                assert(t.text[i] == e.text.subrange(0, t.text.len() as int)[i]);
            }
        }
        assert(s.command =~= e.command.subrange(0, s.command.len() as int)) by {
            assert forall|i: int| 0 <= i < s.command.len() implies s.command[i] == e.command[i] by {
                assert(t.command[i] == e.command.subrange(0, t.command.len() as int)[i]);
            }
        }
    }
}

} // verus!
