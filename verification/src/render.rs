//! The display of a task list: a framed table with one row for each task,
//! in the order of the display.
//!
//! A row has three cells: the row's number from 0, the name of the task's
//! priority, and the task's text. The priority cell is styled unless colour
//! is switched off. An escape character in a task's text is shown by the
//! symbol for escape, so that a text cannot style or break the table. The
//! cells are laid out and framed by `tabled`, and styled by `colored`; what is
//! said of the two is said in the contracts of the small functions at the end
//! of this file, which Verus takes on trust.

use crate::list::{display_order, sort_for_display};
use crate::task::{models, Task, TaskModel};
use vstd::prelude::*;
use vstd::std_specs::iter::IteratorSpec;

verus! {

#[verifier::external_type_specification]
#[verifier::external_body]
pub struct ExTableBuilder(tabled::builder::Builder);

/// The column, from 0, that holds the priority.
pub const PRIORITY_COLUMN: usize = 1;

/// The least width of the priority column, in characters.
pub const PRIORITY_WIDTH: usize = 8;

/// The width, in characters, at which the text in the last column wraps.
pub const TEXT_WIDTH: usize = 60;

/// The number of cells in a row.
pub const ROW_CELLS: usize = 3;

/// The rows that a `tabled` builder holds, each as its cells' texts.
pub uninterp spec fn rows_of(builder: tabled::builder::Builder) -> Seq<Seq<Seq<char>>>;

/// The number of columns that a `tabled` builder counts on: as many as its
/// longest row so far has cells, or as it was made for.
pub uninterp spec fn columns_of(builder: tabled::builder::Builder) -> nat;

/// The text of the table that `tabled` lays out from the rows in its `modern`
/// style, with the cells of `column` padded to `least` characters and the cells
/// of the last column wrapped at `most` characters.
pub uninterp spec fn framed(rows: Seq<Seq<Seq<char>>>, column: int, least: int, most: int) -> Seq<
    char,
>;

/// The character that opens a terminal escape sequence.
pub open spec fn escape() -> char {
    '\u{1b}'
}

/// The character that is shown in place of an escape character: the symbol
/// for escape.
pub open spec fn escape_mark() -> char {
    '\u{241b}'
}

/// A text as it is shown: with the symbol for escape in place of every escape
/// character, and every other character as it is.
pub open spec fn visible(text: Seq<char>) -> Seq<char> {
    text.map_values(
        |c: char|
            if c == escape() {
                escape_mark()
            } else {
                c
            },
    )
}

/// The decimal digit of a number below ten.
pub open spec fn digit(value: int) -> char {
    if value == 0 {
        '0'
    } else if value == 1 {
        '1'
    } else if value == 2 {
        '2'
    } else if value == 3 {
        '3'
    } else if value == 4 {
        '4'
    } else if value == 5 {
        '5'
    } else if value == 6 {
        '6'
    } else if value == 7 {
        '7'
    } else if value == 8 {
        '8'
    } else {
        '9'
    }
}

/// A number in decimal, without leading zeros.
pub open spec fn decimal(number: nat) -> Seq<char>
    decreases number,
{
    if number < 10 {
        seq![digit(number as int)]
    } else {
        decimal(number / 10).push(digit((number % 10) as int))
    }
}

/// The name under which a priority level is displayed. Levels above 3 have no
/// name.
pub open spec fn label_text(level: u8) -> Seq<char> {
    if level == 0 {
        "low"@
    } else if level == 1 {
        "normal"@
    } else if level == 2 {
        "high"@
    } else if level == 3 {
        "urgent"@
    } else {
        Seq::empty()
    }
}

/// The terminal's code for the style of a priority level: dimmed for 0, white
/// for 1, yellow for 2, bold red for 3, and none above.
pub open spec fn style_code(level: u8) -> Option<Seq<char>> {
    if level == 0 {
        Some("2"@)
    } else if level == 1 {
        Some("37"@)
    } else if level == 2 {
        Some("33"@)
    } else if level == 3 {
        Some("1;31"@)
    } else {
        None
    }
}

/// A text between the escape sequence that switches a style on and the one
/// that resets all styles.
pub open spec fn styled(code: Seq<char>, text: Seq<char>) -> Seq<char> {
    "\x1b["@ + code + "m"@ + text + "\x1b[0m"@
}

/// The priority cell of a row.
pub open spec fn priority_text(level: u8, no_colour: bool) -> Seq<char> {
    match style_code(level) {
        Some(code) => if no_colour {
            label_text(level)
        } else {
            styled(code, label_text(level))
        },
        None => label_text(level),
    }
}

/// The cells of the row that shows `task` as number `row` of the display: the
/// number, the priority, and the task's text as it is shown.
pub open spec fn row_cells(row: int, task: TaskModel, no_colour: bool) -> Seq<Seq<char>> {
    seq![decimal(row as nat), priority_text(task.priority, no_colour), visible(task.description)]
}

/// A priority cell that the table can hold: one without an escape character,
/// or the styled name of one of the four named levels.
pub open spec fn is_priority_cell(cell: Seq<char>) -> bool {
    !cell.contains(escape()) || cell == priority_text(0, false) || cell == priority_text(1, false)
        || cell == priority_text(2, false) || cell == priority_text(3, false)
}

/// A row that the table can hold: three cells, of which only the priority may
/// hold escape characters, and only as the style of a named level.
pub open spec fn is_table_row(row: Seq<Seq<char>>) -> bool {
    row.len() == ROW_CELLS && !row[0].contains(escape()) && is_priority_cell(row[1])
        && !row[2].contains(escape())
}

/// The rows that show the given tasks, in the given order.
pub open spec fn rows_for(shown: Seq<TaskModel>, no_colour: bool) -> Seq<Seq<Seq<char>>> {
    Seq::new(shown.len(), |row: int| row_cells(row, shown[row], no_colour))
}

/// The rows of a task list's display.
pub open spec fn table_rows(tasks: Seq<TaskModel>, no_colour: bool) -> Seq<Seq<Seq<char>>> {
    rows_for(display_order(tasks), no_colour)
}

/// The text of the table that is laid out from the rows.
pub open spec fn framed_rows(rows: Seq<Seq<Seq<char>>>) -> Seq<char> {
    framed(rows, PRIORITY_COLUMN as int, PRIORITY_WIDTH as int, TEXT_WIDTH as int)
}

/// The text of a task list's display: the table that is laid out from its
/// rows, and with colour switched off that text as it is shown, so that
/// nothing of it can reach a terminal as an escape sequence.
pub open spec fn table_text(tasks: Seq<TaskModel>, no_colour: bool) -> Seq<char> {
    if no_colour {
        visible(framed_rows(table_rows(tasks, no_colour)))
    } else {
        framed_rows(table_rows(tasks, no_colour))
    }
}

/// A text as it is shown holds no escape character, and a text without one is
/// shown as it is.
pub proof fn lemma_visible_is_plain(text: Seq<char>)
    ensures
        !visible(text).contains(escape()),
        visible(text).len() == text.len(),
        !text.contains(escape()) ==> visible(text) == text,
{
    let shown = visible(text);
    assert forall|i: int| 0 <= i < shown.len() implies shown[i] != escape() by {}
    if !text.contains(escape()) {
        assert forall|i: int| 0 <= i < text.len() implies shown[i] == text[i] by {
            assert(text.contains(text[i]));
        }
        assert(shown =~= text);
    }
}

proof fn lemma_labels_are_plain(level: u8)
    ensures
        !label_text(level).contains(escape()),
{
    reveal_strlit("low");
    reveal_strlit("normal");
    reveal_strlit("high");
    reveal_strlit("urgent");
    let label = label_text(level);
    assert forall|i: int| 0 <= i < label.len() implies label[i] != escape() by {}
}

proof fn lemma_decimal_is_plain(number: nat)
    ensures
        !decimal(number).contains(escape()),
        decimal(number).len() >= 1,
    decreases number,
{
    if number >= 10 {
        lemma_decimal_is_plain(number / 10);
    }
    let text = decimal(number);
    assert forall|i: int| 0 <= i < text.len() implies text[i] != escape() by {
        if number >= 10 && i < text.len() - 1 {
            assert(decimal(number / 10)[i] == text[i]);
            assert(decimal(number / 10).contains(text[i]));
        }
    }
}

/// A level above the named ones is displayed by an empty cell, with colour
/// and without.
pub proof fn lemma_unnamed_level_shows_nothing(level: u8, no_colour: bool)
    requires
        level > 3,
    ensures
        priority_text(level, no_colour) == Seq::<char>::empty(),
{
}

/// With colour switched off, no cell of the display holds an escape
/// character, and neither does the text of the display, whatever the tasks
/// hold.
pub proof fn lemma_plain_table_holds_no_escape(tasks: Seq<TaskModel>)
    ensures
        !table_text(tasks, true).contains(escape()),
        forall|row: int, cell: int|
            0 <= row < table_rows(tasks, true).len() && 0 <= cell < table_rows(
                tasks,
                true,
            )[row].len() ==> !(#[trigger] table_rows(tasks, true)[row][cell]).contains(escape()),
{
    lemma_visible_is_plain(framed_rows(table_rows(tasks, true)));
    let rows = table_rows(tasks, true);
    let shown = display_order(tasks);
    assert forall|row: int, cell: int|
        0 <= row < rows.len() && 0 <= cell < rows[row].len() implies !(
    #[trigger] rows[row][cell]).contains(escape()) by {
        lemma_decimal_is_plain(row as nat);
        lemma_labels_are_plain(shown[row].priority);
        lemma_visible_is_plain(shown[row].description);
    }
}

/// Every row of a display is one that the table can hold.
proof fn lemma_rows_fit_the_table(row: int, task: TaskModel, no_colour: bool)
    requires
        0 <= row,
    ensures
        is_table_row(row_cells(row, task, no_colour)),
{
    lemma_decimal_is_plain(row as nat);
    lemma_labels_are_plain(task.priority);
    lemma_visible_is_plain(task.description);
}

/// The text of one decimal digit.
fn digit_text(value: usize) -> (text: &'static str)
    requires
        value < 10,
    ensures
        text@ == seq![digit(value as int)],
{
    proof {
        reveal_strlit("0");
        reveal_strlit("1");
        reveal_strlit("2");
        reveal_strlit("3");
        reveal_strlit("4");
        reveal_strlit("5");
        reveal_strlit("6");
        reveal_strlit("7");
        reveal_strlit("8");
        reveal_strlit("9");
    }
    let text = match value {
        0 => "0",
        1 => "1",
        2 => "2",
        3 => "3",
        4 => "4",
        5 => "5",
        6 => "6",
        7 => "7",
        8 => "8",
        _ => "9",
    };
    assert(text@ =~= seq![digit(value as int)]);
    text
}

/// A text as it is shown: with the symbol for escape in place of every escape
/// character.
pub fn visible_text(text: &str) -> (shown: String)
    ensures
        shown@ == visible(text@),
{
    let mut shown = String::new();
    let mut rest = text.chars();
    let ghost mut done: Seq<char> = Seq::empty();
    loop
        invariant
            rest.obeys_prophetic_iter_laws(),
            done + rest.remaining() == text@,
            shown@ == visible(done),
            rest.decrease() is Some,
        decreases rest.decrease()->0,
    {
        match rest.next() {
            Some(c) => {
                proof {
                    done = done.push(c);
                    assert(done + rest.remaining() =~= text@);
                }
                if c == '\u{1b}' {
                    push_char(&mut shown, '\u{241b}');
                } else {
                    push_char(&mut shown, c);
                }
                assert(shown@ =~= visible(done));
            },
            None => {
                assert(done =~= text@);
                return shown;
            },
        }
    }
}

/// The number of a row, in decimal.
pub fn index_label(row: usize) -> (text: String)
    ensures
        text@ == decimal(row as nat),
    decreases row,
{
    if row < 10 {
        String::from_str(digit_text(row))
    } else {
        let mut text = index_label(row / 10);
        text.append(digit_text(row % 10));
        assert(text@ =~= decimal(row as nat));
        text
    }
}

/// The name under which a priority level is displayed.
pub fn priority_label(level: u8) -> (label: &'static str)
    ensures
        label@ == label_text(level),
{
    proof {
        reveal_strlit("");
    }
    let label = match level {
        0 => "low",
        1 => "normal",
        2 => "high",
        3 => "urgent",
        _ => "",
    };
    assert(label@ =~= label_text(level));
    label
}

/// The priority cell of a row: the level's name, styled unless colour is
/// switched off.
pub fn priority_cell(level: u8, no_colour: bool) -> (cell: String)
    ensures
        cell@ == priority_text(level, no_colour),
{
    let label = priority_label(level);
    proof {
        lemma_labels_are_plain(level);
        reveal_strlit("2");
        reveal_strlit("37");
        reveal_strlit("33");
        reveal_strlit("1;31");
    }
    if no_colour || level > 3 {
        String::from_str(label)
    } else if level == 0 {
        dimmed(label)
    } else if level == 1 {
        white(label)
    } else if level == 2 {
        yellow(label)
    } else {
        bold_red(label)
    }
}

/// Lays the given tasks out as a table, one row for each in the given order.
pub fn render_rows(shown: &Vec<Task>, no_colour: bool) -> (text: String)
    ensures
        text@ == framed_rows(rows_for(models(shown@), no_colour)),
{
    let mut builder = new_rows();
    let mut row: usize = 0;
    while row < shown.len()
        invariant
            row <= shown.len(),
            columns_of(builder) == ROW_CELLS || (columns_of(builder) == 0 && rows_of(builder).len()
                == 0),
            rows_of(builder).len() == row,
            forall|r: int|
                0 <= r < row ==> (#[trigger] rows_of(builder)[r]) == row_cells(
                    r,
                    shown@[r]@,
                    no_colour,
                ),
        decreases shown.len() - row,
    {
        let task = &shown[row];
        proof {
            lemma_rows_fit_the_table(row as int, task@, no_colour);
        }
        push_row(
            &mut builder,
            index_label(row),
            priority_cell(task.priority, no_colour),
            visible_text(task.description.as_str()),
        );
        row += 1;
    }
    assert(rows_of(builder) =~= rows_for(models(shown@), no_colour));
    assert forall|r: int| 0 <= r < rows_of(builder).len() implies is_table_row(
        #[trigger] rows_of(builder)[r],
    ) by {
        lemma_rows_fit_the_table(r, shown@[r]@, no_colour);
    }
    frame(builder, PRIORITY_COLUMN, PRIORITY_WIDTH, TEXT_WIDTH)
}

/// The display of a task list: its tasks by priority, highest first, and those
/// of one priority in the order in which the list keeps them, as a framed
/// table. With `no_colour` the priority cells are left unstyled and the text
/// holds no escape character.
pub fn list_tasks(tasks: &Vec<Task>, no_colour: bool) -> (text: String)
    ensures
        text@ == table_text(models(tasks@), no_colour),
        no_colour ==> !text@.contains(escape()),
{
    let shown = sort_for_display(tasks);
    let table = render_rows(&shown, no_colour);
    if no_colour {
        proof {
            lemma_visible_is_plain(table@);
        }
        visible_text(table.as_str())
    } else {
        table
    }
}

/// `String::push`: the character is appended to the text.
#[verifier::external_body]
fn push_char(text: &mut String, c: char)
    ensures
        final(text)@ == old(text)@.push(c),
{
    text.push(c);
}

/// `tabled::builder::Builder::default`: a builder without rows, which counts
/// on no column yet.
#[verifier::external_body]
fn new_rows() -> (builder: tabled::builder::Builder)
    ensures
        rows_of(builder).len() == 0,
        columns_of(builder) == 0,
{
    tabled::builder::Builder::default()
}

/// `tabled::builder::Builder::push_record` with three cells: the row is added
/// below the others, which stay as they are. The builder must be without rows
/// and columns, or have three columns, as a builder has that was only ever
/// filled through this function. The cells must be such as the table can
/// hold: `tabled` measures each cell as it takes it, and on some texts with
/// escape characters its measuring panics.
#[verifier::external_body]
fn push_row(builder: &mut tabled::builder::Builder, number: String, priority: String, text: String)
    requires
        columns_of(*old(builder)) == ROW_CELLS || (columns_of(*old(builder)) == 0 && rows_of(
            *old(builder),
        ).len() == 0),
        is_table_row(seq![number@, priority@, text@]),
    ensures
        rows_of(*final(builder)) == rows_of(*old(builder)).push(seq![number@, priority@, text@]),
        columns_of(*final(builder)) == ROW_CELLS,
{
    builder.push_record([number, priority, text]);
}

/// `Builder::build`, `Table::with` of `Style::modern`, `Table::modify` of one
/// column by `Width::increase` and of the last column by `Width::wrap`, and the
/// table's `to_string`: the text depends on the rows and the three numbers
/// alone. Every row must be one that the table can hold: `tabled` assumes of a
/// builder's rows that they are equally long, and its wrapping panics on some
/// texts with escape characters. The least width is bounded, since every cell
/// of the column is padded to it in memory.
#[verifier::external_body]
fn frame(builder: tabled::builder::Builder, column: usize, least: usize, most: usize) -> (text:
    String)
    requires
        forall|r: int| 0 <= r < rows_of(builder).len() ==> is_table_row(#[trigger] rows_of(builder)[r]),
        least <= u16::MAX,
    ensures
        text@ == framed(rows_of(builder), column as int, least as int, most as int),
{
    let mut table = builder.build();
    table.with(tabled::settings::Style::modern());
    table.modify(
        tabled::settings::object::Columns::one(column),
        tabled::settings::Width::increase(least),
    );
    table.modify(tabled::settings::object::Columns::last(), tabled::settings::Width::wrap(most));
    table.to_string()
}

/// `colored::Colorize::dimmed` with colour forced on by
/// `colored::control::set_override`: the label between the code for dimmed
/// text and the reset.
#[verifier::external_body]
fn dimmed(label: &str) -> (text: String)
    requires
        !label@.contains(escape()),
    ensures
        text@ == styled("2"@, label@),
{
    colored::control::set_override(true);
    colored::Colorize::dimmed(label).to_string()
}

/// `colored::Colorize::white` with colour forced on: the label between the
/// code for white text and the reset.
#[verifier::external_body]
fn white(label: &str) -> (text: String)
    requires
        !label@.contains(escape()),
    ensures
        text@ == styled("37"@, label@),
{
    colored::control::set_override(true);
    colored::Colorize::white(label).to_string()
}

/// `colored::Colorize::yellow` with colour forced on: the label between the
/// code for yellow text and the reset.
#[verifier::external_body]
fn yellow(label: &str) -> (text: String)
    requires
        !label@.contains(escape()),
    ensures
        text@ == styled("33"@, label@),
{
    colored::control::set_override(true);
    colored::Colorize::yellow(label).to_string()
}

/// `colored::Colorize::red` and then `bold`, with colour forced on: the label
/// between the code for bold red text and the reset.
#[verifier::external_body]
fn bold_red(label: &str) -> (text: String)
    requires
        !label@.contains(escape()),
    ensures
        text@ == styled("1;31"@, label@),
{
    colored::control::set_override(true);
    colored::Colorize::bold(colored::Colorize::red(label)).to_string()
}

} // verus!
