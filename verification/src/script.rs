//! The script: a fixed sequence of steps whose results are lines of text.
//!
//! Nothing here writes anywhere. A run returns the lines in the order in which
//! they are to be written, each without its line ending, so that a caller can
//! send them to whatever stream it likes.

use vstd::prelude::*;
use crate::decimal::{decimal, to_decimal};
use crate::dog::Dog;

verus! {

/// Number of lines that the counting loop contributes.
pub const COUNT: i32 = 10;

/// What a run of the script leaves behind.
pub struct Outcome {
    /// The lines written, in order, without line endings.
    pub lines: Vec<String>,
    /// The value computed last: the absolute value of -5, plus one. It is
    /// never written.
    pub magnitude: i32,
}

/// The text that a stream holds once `lines` have been written to it: every
/// line, in order, each followed by a line feed.
pub open spec fn written(lines: Seq<Seq<char>>) -> Seq<char>
    decreases lines.len(),
{
    if lines.len() == 0 {
        Seq::empty()
    } else {
        written(lines.drop_last()) + lines.last() + seq!['\n']
    }
}

/// The line that opens the script.
pub open spec fn greeting_text() -> Seq<char> {
    "Hello, world!"@
}

/// The line that the counting loop writes for the counter value `i`.
pub open spec fn counting_text(i: int) -> Seq<char> {
    "i is: "@ + decimal(i)
}

/// The lines of the counting loop: one for each counter value from zero up
/// to, and not including, `COUNT`.
pub open spec fn counting_block() -> Seq<Seq<char>> {
    Seq::new(COUNT as nat, |i: int| counting_text(i))
}

/// Every line of a run, in order.
pub open spec fn transcript() -> Seq<Seq<char>> {
    seq![
        "Hello, world!"@,
        "i is: 0"@,
        "i is: 1"@,
        "i is: 2"@,
        "i is: 3"@,
        "i is: 4"@,
        "i is: 5"@,
        "i is: 6"@,
        "i is: 7"@,
        "i is: 8"@,
        "i is: 9"@,
        "0"@,
        "bark!"@,
        "9"@,
    ]
}

/// Returns the greeting.
pub fn greeting() -> (line: String)
    ensures
        line@ == greeting_text(),
{
    "Hello, world!".to_string()
}

/// Returns the line of the counting loop for the counter value `i`.
pub fn counting_line(i: i32) -> (line: String)
    ensures
        line@ == counting_text(i as int),
{
    let mut line = "i is: ".to_string();
    let number = to_decimal(i);
    line.append(number.as_str());
    line
}

/// Returns the lines of the counting loop, in order: `COUNT` of them, from
/// `i is: 0` to `i is: 9`.
pub fn counting_lines() -> (lines: Vec<String>)
    ensures
        lines.deep_view() == counting_block(),
        lines@.len() == COUNT,
        lines@[0]@ == "i is: 0"@,
        lines@[COUNT - 1]@ == "i is: 9"@,
{
    let mut lines: Vec<String> = Vec::new();
    for i in 0..COUNT
        invariant
            lines@.len() == i,
            forall|k: int| 0 <= k < i ==> (#[trigger] lines@[k])@ == counting_text(k),
    {
        lines.push(counting_line(i));
    }
    proof {
        assert(lines.deep_view() =~= counting_block());
        reveal_strlit("i is: ");
        reveal_strlit("i is: 0");
        reveal_strlit("i is: 9");
        assert(counting_text(0) =~= "i is: 0"@);
        assert(counting_text(9) =~= "i is: 9"@);
    }
    lines
}

/// Returns the dog of the script: a Chihuahua, four years old.
pub fn sparky() -> (dog: Dog)
    ensures
        dog.breed@ == "Chihuahua"@,
        dog.age == 4,
{
    Dog { breed: "Chihuahua".to_string(), age: 4 }
}

/// The transcript is the greeting, the counting block, the text of zero, the
/// bark and the text of nine, in that order.
pub proof fn lemma_transcript_parts()
    ensures
        transcript() == seq![greeting_text()] + counting_block() + seq![
            decimal(0),
            Dog::bark_text(),
            decimal(9),
        ],
        transcript().len() == 14,
{
    reveal_strlit("i is: ");
    reveal_strlit("i is: 0");
    reveal_strlit("i is: 1");
    reveal_strlit("i is: 2");
    reveal_strlit("i is: 3");
    reveal_strlit("i is: 4");
    reveal_strlit("i is: 5");
    reveal_strlit("i is: 6");
    reveal_strlit("i is: 7");
    reveal_strlit("i is: 8");
    reveal_strlit("i is: 9");
    reveal_strlit("0");
    reveal_strlit("9");
    let parts = seq![greeting_text()] + counting_block() + seq![
        decimal(0),
        Dog::bark_text(),
        decimal(9),
    ];
    assert(parts.len() == 14);
    assert forall|k: int| 0 <= k < 14 implies transcript()[k] == parts[k] by {
        if 1 <= k <= 10 {
            assert(parts[k] == counting_text(k - 1));
            assert(transcript()[k] =~= counting_text(k - 1));
        } else if k == 11 {
            assert(transcript()[k] =~= decimal(0));
        } else if k == 13 {
            assert(transcript()[k] =~= decimal(9));
        }
    }
    assert(transcript() =~= parts);
}

/// Runs the script from start to end: the greeting, the counting loop, the
/// text of zero, the dog's bark and the sum of four and five, and then one
/// more computation whose result is kept and not written.
pub fn run() -> (outcome: Outcome)
    ensures
        outcome.lines.deep_view() == transcript(),
        outcome.lines@.len() == 14,
        outcome.magnitude == 6,
{
    let mut lines: Vec<String> = Vec::new();
    lines.push(greeting());

    let mut counted = counting_lines();
    lines.append(&mut counted);

    let x: i32 = 0;
    lines.push(to_decimal(x));

    // A fixed sequence of four numbers; nothing reads it.
    let _numbers: [i32; 4] = [1, 2, 3, 4];

    let dog = sparky();
    lines.push(dog.bark());

    lines.push(to_decimal(crate::arith::add(4, 5)));

    let x: i32 = -5;
    let mut abs: i32 = if x > 0 {
        x
    } else {
        -x
    };
    abs += 1;

    proof {
        lemma_transcript_parts();
        let parts = seq![greeting_text()] + counting_block() + seq![
            decimal(0),
            Dog::bark_text(),
            decimal(9),
        ];
        assert forall|k: int| 0 <= k < 14 implies lines.deep_view()[k] == parts[k] by {
            assert(lines.deep_view()[k] == lines@[k]@);
        }
        assert(lines.deep_view() =~= parts);
    }
    Outcome { lines, magnitude: abs }
}

impl Outcome {
    /// Returns everything the run wrote, as one text.
    pub fn output(&self) -> (text: String)
        ensures
            text@ == written(self.lines.deep_view()),
    {
        let ghost all = self.lines.deep_view();
        let mut text = String::new();
        let mut k: usize = 0;
        while k < self.lines.len()
            invariant
                k <= self.lines@.len(),
                all == self.lines.deep_view(),
                text@ == written(all.take(k as int)),
            decreases self.lines@.len() - k,
        {
            proof {
                reveal_strlit("\n");
                assert(all.take(k + 1).drop_last() =~= all.take(k as int));
                assert(all.take(k + 1).last() == self.lines@[k as int]@);
            }
            text.append(self.lines[k].as_str());
            text.append("\n");
            k += 1;
        }
        assert(all.take(k as int) =~= all);
        text
    }
}

} // verus!
