//! The fixed, ordered list of named scenarios and the runner that executes
//! them all. Each scenario performs one illustrative operation on in-memory
//! text values and returns its narration; the spec function beside it pins
//! that narration exactly, so a complete run is provably deterministic.

use vstd::prelude::*;
use vstd::slice::slice_index_get;
use vstd::slice::slice_subrange;
use vstd::string::StringExecFns;

use crate::numbers::decimal_seq;
use crate::numbers::decimal_string;
use crate::numbers::int_seq;
use crate::numbers::int_string;
use crate::ownership::BorrowState;
use crate::ownership::TextBinding;
use crate::text::calculate_length;
use crate::text::change;
use crate::text::extract_region;
use crate::text::first_word;
use crate::text::first_word_spec;
use crate::text::no_dangle;
use crate::text::takes_and_gives_back;

verus! {

/// Narration of the mutable-string scenario: a growable text is extended in
/// place by its single owner.
pub open spec fn mutable_string_text() -> Seq<char> {
    "Mutable string...\n"@ + "hello"@ + ", world~"@ + "\n"@
}

/// A growable text value is mutated in place by its single owner.
pub fn mutable_string() -> (out: String)
    ensures
        out@ == mutable_string_text(),
{
    let mut s = String::from_str("hello");
    s.append(", world~");
    let mut out = String::from_str("Mutable string...\n");
    out.append(s.as_str());
    out.append("\n");
    proof {
        assert(out@ =~= mutable_string_text());
    }
    out
}

/// Narration of the simple-copy scenario: assigning a simple value copies
/// it, so both bindings show the same number.
pub open spec fn multiple_variables_simple_text() -> Seq<char> {
    "Multiple variables simple...\n"@ + "x = "@ + decimal_seq(5) + ", y = "@ + decimal_seq(5)
        + "\n"@
}

/// A simple value is copied on assignment: the original binding stays valid
/// and equals the copy.
pub fn multiple_variables_simple() -> (out: String)
    ensures
        out@ == multiple_variables_simple_text(),
{
    let x: u64 = 5;
    let y: u64 = x;
    assert(y == x);
    let mut out = String::from_str("Multiple variables simple...\n");
    out.append("x = ");
    out.append(decimal_string(x).as_str());
    out.append(", y = ");
    out.append(decimal_string(y).as_str());
    out.append("\n");
    proof {
        assert(out@ =~= multiple_variables_simple_text());
    }
    out
}

/// Narration of the move scenario: only the new binding is shown, since the
/// old one was invalidated by the transfer.
pub open spec fn multiple_variables_complex_text() -> Seq<char> {
    "Multiple variables complex...\n"@ + "hello"@ + ", world\n"@
}

/// A growable text value is moved: the source binding becomes invalid and
/// only the destination may be read afterwards.
pub fn multiple_variables_complex() -> (out: String)
    ensures
        out@ == multiple_variables_complex_text(),
{
    let mut s1 = TextBinding::new(String::from_str("hello"));
    let s2 = s1.transfer();
    assert(!s1.valid());
    let mut out = String::from_str("Multiple variables complex...\n");
    out.append(s2.read().as_str());
    out.append(", world\n");
    proof {
        assert(out@ =~= multiple_variables_complex_text());
    }
    out
}

/// Narration of the clone scenario: both the original and the clone remain
/// valid and show the same text.
pub open spec fn using_clone_text() -> Seq<char> {
    "Clone complex data...\n"@ + "s1 = "@ + "hello"@ + ", s2 = "@ + "hello"@ + "\n"@
}

/// Cloning a text value leaves the original and the clone independently
/// valid and equal.
pub fn using_clone() -> (out: String)
    ensures
        out@ == using_clone_text(),
{
    let s1 = TextBinding::new(String::from_str("hello"));
    let s2 = s1.duplicate();
    assert(s1.valid() && s2.valid() && s1.content() == s2.content());
    let mut out = String::from_str("Clone complex data...\n");
    out.append("s1 = ");
    out.append(s1.read().as_str());
    out.append(", s2 = ");
    out.append(s2.read().as_str());
    out.append("\n");
    proof {
        assert(out@ =~= using_clone_text());
    }
    out
}

/// Narration printed for a text value handed over by ownership.
pub open spec fn print_string_text(value: Seq<char>) -> Seq<char> {
    "This is a string:  "@ + value + "\n"@
}

/// Takes ownership of a text value and narrates it; the caller's binding is
/// gone afterwards.
pub fn print_string(value: String) -> (out: String)
    ensures
        out@ == print_string_text(value@),
{
    let mut out = String::from_str("This is a string:  ");
    out.append(value.as_str());
    out.append("\n");
    proof {
        assert(out@ =~= print_string_text(value@));
    }
    out
}

/// Narration printed for a simple value handed over by copy.
pub open spec fn print_integer_text(value: int) -> Seq<char> {
    "This is an integer: "@ + int_seq(value) + "\n"@
}

/// Takes a simple value by copy and narrates it; the caller's binding stays
/// valid.
pub fn print_integer(value: i32) -> (out: String)
    ensures
        out@ == print_integer_text(value as int),
{
    let mut out = String::from_str("This is an integer: ");
    out.append(int_string(value).as_str());
    out.append("\n");
    proof {
        assert(out@ =~= print_integer_text(value as int));
    }
    out
}

/// Narration of the parameter-passing scenario: the text value moves into
/// the callee, while the simple value is copied and stays usable.
pub open spec fn passing_function_params_text() -> Seq<char> {
    "Passing function params...\n"@ + print_string_text("hello"@) + print_integer_text(5)
        + "Check validity of x: "@ + int_seq(5) + "\n"@
}

/// Passing a text value moves it into the callee; passing a simple value
/// copies it, so that binding can still be shown afterwards.
pub fn passing_function_params() -> (out: String)
    ensures
        out@ == passing_function_params_text(),
{
    let mut out = String::from_str("Passing function params...\n");
    let s = String::from_str("hello");
    out.append(print_string(s).as_str());
    let x: i32 = 5;
    out.append(print_integer(x).as_str());
    out.append("Check validity of x: ");
    out.append(int_string(x).as_str());
    out.append("\n");
    proof {
        assert(out@ =~= passing_function_params_text());
    }
    out
}

/// Narration of the return-value scenario: the callee hands ownership back
/// unchanged.
pub open spec fn function_with_return_text() -> Seq<char> {
    "Function with return...\n"@ + "Getting back s and store in s2: "@ + "hello"@ + "\n"@
}

/// A function can take ownership and give it back through its return value.
pub fn function_with_return() -> (out: String)
    ensures
        out@ == function_with_return_text(),
{
    let s = String::from_str("hello");
    let s2 = takes_and_gives_back(s);
    let mut out = String::from_str("Function with return...\n");
    out.append("Getting back s and store in s2: ");
    out.append(s2.as_str());
    out.append("\n");
    proof {
        assert(out@ =~= function_with_return_text());
    }
    out
}

/// Narration of the borrowing scenario: the length is read through a shared
/// borrow, so the owner stays valid.
pub open spec fn using_reference_text() -> Seq<char> {
    "Using reference...\n"@ + "The length of '"@ + "hello"@ + "' is "@ + decimal_seq(
        "hello"@.len(),
    ) + ".\n"@
}

/// Borrowing a text value gives non-owning access: the owner remains usable
/// after the length was read through the borrow.
pub fn using_reference() -> (out: String)
    ensures
        out@ == using_reference_text(),
{
    let s1 = String::from_str("hello");
    let len = calculate_length(&s1);
    let mut out = String::from_str("Using reference...\n");
    out.append("The length of '");
    out.append(s1.as_str());
    out.append("' is ");
    out.append(decimal_string(len as u64).as_str());
    out.append(".\n");
    proof {
        assert(out@ =~= using_reference_text());
    }
    out
}

/// Narration of the mutable-borrow scenario: the callee extended the text
/// through an exclusive borrow.
pub open spec fn using_mutable_reference_text() -> Seq<char> {
    "Using mutable referance...\n"@ + "The final result is: "@ + "hello"@ + ", world"@ + "\n"@
}

/// An exclusive borrow lets a callee mutate the owner's text in place.
pub fn using_mutable_reference() -> (out: String)
    ensures
        out@ == using_mutable_reference_text(),
{
    let mut s = String::from_str("hello");
    change(&mut s);
    let mut out = String::from_str("Using mutable referance...\n");
    out.append("The final result is: ");
    out.append(s.as_str());
    out.append("\n");
    proof {
        assert(out@ =~= using_mutable_reference_text());
    }
    out
}

/// Narration of the exclusivity scenario: two exclusive borrows one after
/// the other, then two shared borrows at once.
pub open spec fn rules_of_mutable_references_text() -> Seq<char> {
    "Rules of mutable references...\n"@ + "r1: "@ + "hello"@ + "\n"@ + "r2: "@ + "hello"@ + "\n"@
        + "r1: "@ + "hello"@ + ", r2: "@ + "hello"@ + "\n"@
}

/// Exclusive borrows must not overlap, while shared borrows may: the
/// tracker's contracts demand exactly that, and each step here discharges
/// them.
pub fn rules_of_mutable_references() -> (out: String)
    ensures
        out@ == rules_of_mutable_references_text(),
{
    let s = String::from_str("hello");
    let mut tracker = BorrowState::new();
    let mut out = String::from_str("Rules of mutable references...\n");

    tracker.begin_exclusive();
    out.append("r1: ");
    out.append(s.as_str());
    out.append("\n");
    tracker.end_exclusive();

    tracker.begin_exclusive();
    out.append("r2: ");
    out.append(s.as_str());
    out.append("\n");
    tracker.end_exclusive();

    tracker.begin_shared();
    tracker.begin_shared();
    assert(tracker.reader_count() == 2 && !tracker.writer_active());
    out.append("r1: ");
    out.append(s.as_str());
    out.append(", r2: ");
    out.append(s.as_str());
    out.append("\n");
    tracker.end_shared();
    tracker.end_shared();
    proof {
        assert(out@ =~= rules_of_mutable_references_text());
    }
    out
}

/// Narration of the dangling-reference scenario: returning an owned value
/// transfers it, so nothing dangles.
pub open spec fn about_dangle_text() -> Seq<char> {
    "About dangle...\n"@ + "No dangle: "@ + "hello"@ + "\n"@
}

/// Returning an owned text value moves it to the caller instead of leaving
/// a reference behind.
pub fn about_dangle() -> (out: String)
    ensures
        out@ == about_dangle_text(),
{
    let result = no_dangle();
    let mut out = String::from_str("About dangle...\n");
    out.append("No dangle: ");
    out.append(result.as_str());
    out.append("\n");
    proof {
        assert(out@ =~= about_dangle_text());
    }
    out
}

/// Narration of the slicing scenario: four borrowed regions of
/// `"hello world"`, two before the space and two after it.
pub open spec fn using_slice_text() -> Seq<char> {
    "Using slice...\n"@ + "Slice 1: "@ + "hello world"@.subrange(0, 5) + "\n"@ + "Slice 2: "@
        + "hello world"@.subrange(0, 5) + "\n"@ + "Slice 3: "@ + "hello world"@.subrange(6, 11)
        + "\n"@ + "Slice 4: "@ + "hello world"@.subrange(6, 11) + "\n"@
}

/// A slice is a non-owning view of a contiguous region; the same region can
/// be named with or without its default end points.
pub fn using_slice() -> (out: String)
    ensures
        out@ == using_slice_text(),
{
    let s = String::from_str("hello world");
    proof {
        reveal_strlit("hello world");
    }
    let len = calculate_length(&s);
    let slice1 = extract_region(s.as_str(), 0, 5);
    let slice2 = extract_region(s.as_str(), 0, 5);
    let slice3 = extract_region(s.as_str(), 6, len);
    let slice4 = extract_region(s.as_str(), 6, len);
    let mut out = String::from_str("Using slice...\n");
    out.append("Slice 1: ");
    out.append(slice1);
    out.append("\n");
    out.append("Slice 2: ");
    out.append(slice2);
    out.append("\n");
    out.append("Slice 3: ");
    out.append(slice3);
    out.append("\n");
    out.append("Slice 4: ");
    out.append(slice4);
    out.append("\n");
    proof {
        assert(out@ =~= using_slice_text());
    }
    out
}

/// Narration of the first-word scenario: the region of `"hello world"`
/// before its first space.
pub open spec fn using_slice_function_text() -> Seq<char> {
    "Using slice function...\n"@ + "First word is "@ + first_word_spec("hello world"@) + "\n"@
}

/// Extracting the region before the first space through a function that
/// borrows the text.
pub fn using_slice_function() -> (out: String)
    ensures
        out@ == using_slice_function_text(),
{
    let s = String::from_str("hello world");
    let first = first_word(s.as_str());
    let mut out = String::from_str("Using slice function...\n");
    out.append("First word is ");
    out.append(first);
    out.append("\n");
    proof {
        assert(out@ =~= using_slice_function_text());
    }
    out
}

/// Narration of the general-slice scenario: the first word of six borrowed
/// views, whole or partial, of the same text.
pub open spec fn general_string_slice_text() -> Seq<char> {
    "General string slice...\n"@ + "Output: "@ + first_word_spec("hello world"@.subrange(0, 6))
        + " "@ + first_word_spec("hello world"@) + " "@ + first_word_spec("hello world"@) + " "@
        + first_word_spec("hello world"@.subrange(0, 6)) + " "@ + first_word_spec("hello world"@)
        + " "@ + first_word_spec("hello world"@) + "\n"@
}

/// A function taking a borrowed text view serves owned values, partial
/// regions and literals alike.
pub fn general_string_slice() -> (out: String)
    ensures
        out@ == general_string_slice_text(),
{
    let my_string = String::from_str("hello world");
    proof {
        reveal_strlit("hello world");
    }
    let len = calculate_length(&my_string);
    let w1 = first_word(extract_region(my_string.as_str(), 0, 6));
    let w2 = first_word(extract_region(my_string.as_str(), 0, len));
    let w3 = first_word(my_string.as_str());

    let my_string_literal = "hello world";
    let wl1 = first_word(extract_region(my_string_literal, 0, 6));
    let wl2 = first_word(extract_region(my_string_literal, 0, len));
    let wl3 = first_word(my_string_literal);

    let mut out = String::from_str("General string slice...\n");
    out.append("Output: ");
    out.append(w1);
    out.append(" ");
    out.append(w2);
    out.append(" ");
    out.append(w3);
    out.append(" ");
    out.append(wl1);
    out.append(" ");
    out.append(wl2);
    out.append(" ");
    out.append(wl3);
    out.append("\n");
    proof {
        assert("hello world"@.subrange(0, "hello world"@.len() as int) =~= "hello world"@);
        assert(out@ =~= general_string_slice_text());
    }
    out
}

/// One narration line per item, in order.
pub open spec fn items_text(items: Seq<i32>) -> Seq<char>
    decreases items.len(),
{
    if items.len() == 0 {
        Seq::<char>::empty()
    } else {
        items_text(items.drop_last()) + int_seq(items.last() as int) + "\n"@
    }
}

/// Narration of the sequence-slice scenario: the items of the sub-region
/// spanning indices 1..3 of `[1, 2, 3, 4, 5]`, which are exactly 2 and 3.
pub open spec fn other_slices_text() -> Seq<char> {
    "Other slices...\n"@ + items_text(seq![2i32, 3i32])
}

/// Slicing works on any contiguous sequence: the sub-region spanning
/// indices 1..3 of `[1, 2, 3, 4, 5]` holds exactly `[2, 3]`.
pub fn other_slices() -> (out: String)
    ensures
        out@ == other_slices_text(),
{
    let mut a: Vec<i32> = Vec::new();
    a.push(1);
    a.push(2);
    a.push(3);
    a.push(4);
    a.push(5);
    let sub = slice_subrange(a.as_slice(), 1, 3);
    proof {
        assert(sub@ =~= seq![2i32, 3i32]);
    }
    let mut out = String::from_str("Other slices...\n");
    let mut i: usize = 0;
    while i < sub.len()
        invariant
            i <= sub@.len(),
            out@ == "Other slices...\n"@ + items_text(sub@.take(i as int)),
        decreases sub@.len() - i,
    {
        let item = *slice_index_get(sub, i);
        out.append(int_string(item).as_str());
        out.append("\n");
        proof {
            assert(sub@.take(i + 1 as int).drop_last() =~= sub@.take(i as int));
            assert(sub@.take(i + 1 as int).last() == sub@[i as int]);
            assert(out@ =~= "Other slices...\n"@ + items_text(sub@.take(i + 1 as int)));
        }
        i += 1;
    }
    proof {
        assert(sub@.take(sub@.len() as int) =~= sub@);
        assert(out@ =~= other_slices_text());
    }
    out
}

/// The narration of a complete run: every scenario's text, in declaration
/// order.
pub open spec fn run_all_text() -> Seq<char> {
    mutable_string_text() + multiple_variables_simple_text() + multiple_variables_complex_text()
        + using_clone_text() + passing_function_params_text() + function_with_return_text()
        + using_reference_text() + using_mutable_reference_text()
        + rules_of_mutable_references_text() + about_dangle_text() + using_slice_text()
        + using_slice_function_text() + general_string_slice_text() + other_slices_text()
}

/// Runs the fixed scenario list in declaration order and returns the full
/// narration. The result is pinned exactly, so every run produces the same
/// text.
pub fn run_all() -> (out: String)
    ensures
        out@ == run_all_text(),
{
    let mut out = mutable_string();
    out.append(multiple_variables_simple().as_str());
    out.append(multiple_variables_complex().as_str());
    out.append(using_clone().as_str());
    out.append(passing_function_params().as_str());
    out.append(function_with_return().as_str());
    out.append(using_reference().as_str());
    out.append(using_mutable_reference().as_str());
    out.append(rules_of_mutable_references().as_str());
    out.append(about_dangle().as_str());
    out.append(using_slice().as_str());
    out.append(using_slice_function().as_str());
    out.append(general_string_slice().as_str());
    out.append(other_slices().as_str());
    proof {
        assert(out@ =~= run_all_text());
    }
    out
}

/// Law: a complete run is deterministic. Any two outputs that satisfy
/// `run_all`'s contract are identical, character for character.
pub proof fn lemma_run_all_deterministic(first: Seq<char>, second: Seq<char>)
    requires
        first == run_all_text(),
        second == run_all_text(),
    ensures
        first == second,
{
}

} // verus!
