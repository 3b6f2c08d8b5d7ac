//! The commands that a line of text can ask for.
use vstd::prelude::*;
use crate::arc::ArcView;
use crate::arccommand::ArcCommand;
use crate::arguments::{number_arg, number_at, text_arg, text_at};
use crate::command::{Operation, OperationView};
use crate::datamodel::DataModel;
use crate::exportcommand::ExportCommand;
use crate::ident::decimal;
use crate::line::LineView;
use crate::linecommand::LineCommand;
use crate::pagecommand::{PageCommand, PageCommandView};
use crate::scalar::Scalar;
use crate::text::{same, texts};
use crate::words::{split_whitespace, words_of};

verus! {

/// What `str::to_lowercase` makes of a text.
pub uninterp spec fn lowercase_of(s: Seq<char>) -> Seq<char>;

/// `str::to_lowercase`: the text with each character replaced by its lower
/// case form, as the Unicode character database gives it. The result depends
/// on the text alone.
#[verifier::external_body]
fn lowercase(s: &str) -> (r: String)
    ensures
        r@ == lowercase_of(s@),
{
    s.to_lowercase()
}

/// The reader of command lines.
///
/// A line is a command name and its arguments, separated by spaces. The name
/// is read without regard to case. An argument that is missing takes its
/// default; a numeric argument that reads as no number counts as zero.
///
/// ```text
/// line   x1 y1 x2 y2                        defaults 0 0 0 0
/// arc    x y r angle_start angle_end        defaults 0 0 0 0 360
/// page   name description                   defaults "new page" "page description"
/// export filename                           default  "datamodel.json"
/// ```
pub struct CommandLine {}

impl CommandLine {
    /// The command that the lower case name `name` and the words of a line
    /// ask for, where `id` is the identifier that the command gets; nothing
    /// where `name` is no command name. The word at place 0 is the name as
    /// the line has it, the arguments follow.
    pub open spec fn denoted(
        name: Seq<char>,
        words: Seq<Seq<char>>,
        numbers: Seq<Option<Scalar>>,
        id: Seq<char>,
    ) -> Option<OperationView> {
        if name == "line"@ {
            Some(
                OperationView::Line(
                    LineView {
                        id,
                        x1: number_at(words, numbers, 1, Scalar::zero()),
                        y1: number_at(words, numbers, 2, Scalar::zero()),
                        x2: number_at(words, numbers, 3, Scalar::zero()),
                        y2: number_at(words, numbers, 4, Scalar::zero()),
                    },
                ),
            )
        } else if name == "arc"@ {
            Some(
                OperationView::Arc(
                    ArcView {
                        id,
                        x: number_at(words, numbers, 1, Scalar::zero()),
                        y: number_at(words, numbers, 2, Scalar::zero()),
                        r: number_at(words, numbers, 3, Scalar::zero()),
                        angle_start: number_at(words, numbers, 4, Scalar::zero()),
                        angle_end: number_at(words, numbers, 5, Scalar::full_turn()),
                    },
                ),
            )
        } else if name == "page"@ {
            Some(
                OperationView::Page(
                    PageCommandView {
                        id,
                        name: text_at(words, 1, "new page"@),
                        description: text_at(words, 2, "page description"@),
                    },
                ),
            )
        } else if name == "export"@ {
            Some(OperationView::Export(text_at(words, 1, "datamodel.json"@)))
        } else {
            None
        }
    }

    /// Whether the command takes an identifier from the document.
    pub open spec fn takes_id(op: OperationView) -> bool {
        !(op is Export)
    }

    /// Builds the command that the lower case name `name` and the words of a
    /// line ask for. A command that creates something takes the next
    /// identifier of the document; an export and an unknown name take none.
    /// The command is built and not run.
    pub fn build(
        data_model: &mut DataModel,
        name: &str,
        words: &Vec<String>,
        numbers: &Vec<Option<Scalar>>,
    ) -> (r: Result<Operation, String>)
        requires
            old(data_model)@.id_counter < u64::MAX,
        ensures
            match r {
                Ok(cmd) => {
                    &&& Some(cmd@) == Self::denoted(
                        name@,
                        texts(words@),
                        numbers@,
                        decimal(old(data_model)@.id_counter + 1),
                    )
                    &&& final(data_model)@ == if Self::takes_id(cmd@) {
                        old(data_model)@.advance()
                    } else {
                        old(data_model)@
                    }
                },
                Err(msg) => {
                    &&& Self::denoted(
                        name@,
                        texts(words@),
                        numbers@,
                        decimal(old(data_model)@.id_counter + 1),
                    ) is None
                    &&& msg@ == "Unknown command"@
                    &&& final(data_model)@ == old(data_model)@
                },
            },
    {
        if same(name, "line") {
            let x1 = number_arg(words, numbers, 1, Scalar::zero());
            let y1 = number_arg(words, numbers, 2, Scalar::zero());
            let x2 = number_arg(words, numbers, 3, Scalar::zero());
            let y2 = number_arg(words, numbers, 4, Scalar::zero());
            let cmd = LineCommand::new(data_model.next_id(), x1, y1, x2, y2);
            Ok(Operation::Line(cmd))
        } else if same(name, "arc") {
            let x = number_arg(words, numbers, 1, Scalar::zero());
            let y = number_arg(words, numbers, 2, Scalar::zero());
            let r = number_arg(words, numbers, 3, Scalar::zero());
            let angle_start = number_arg(words, numbers, 4, Scalar::zero());
            let angle_end = number_arg(words, numbers, 5, Scalar::full_turn());
            let cmd = ArcCommand::new(data_model.next_id(), x, y, r, angle_start, angle_end);
            Ok(Operation::Arc(cmd))
        } else if same(name, "page") {
            let name = text_arg(words, 1, "new page");
            let description = text_arg(words, 2, "page description");
            let cmd = PageCommand::new(data_model.next_id(), name, description);
            Ok(Operation::Page(cmd))
        } else if same(name, "export") {
            let filename = text_arg(words, 1, "datamodel.json");
            Ok(Operation::Export(ExportCommand::new(filename)))
        } else {
            Err("Unknown command".to_owned())
        }
    }

    /// Reads the command that `line` asks for. `numbers` holds, for each word
    /// of the line in order, the number that the word reads as, or nothing
    /// where it is no number; a word without an entry counts as no number.
    ///
    /// The name of the command is the first word of the line in lower case;
    /// a line without words has the empty name.
    pub fn parse(data_model: &mut DataModel, line: &str, numbers: &Vec<Option<Scalar>>) -> (r:
        Result<Operation, String>)
        requires
            old(data_model)@.id_counter < u64::MAX,
        ensures
            match r {
                Ok(cmd) => {
                    &&& Some(cmd@) == Self::denoted(
                        lowercase_of(text_at(words_of(line@), 0, ""@)),
                        words_of(line@),
                        numbers@,
                        decimal(old(data_model)@.id_counter + 1),
                    )
                    &&& final(data_model)@ == if Self::takes_id(cmd@) {
                        old(data_model)@.advance()
                    } else {
                        old(data_model)@
                    }
                },
                Err(msg) => {
                    &&& Self::denoted(
                        lowercase_of(text_at(words_of(line@), 0, ""@)),
                        words_of(line@),
                        numbers@,
                        decimal(old(data_model)@.id_counter + 1),
                    ) is None
                    &&& msg@ == "Unknown command"@
                    &&& final(data_model)@ == old(data_model)@
                },
            },
    {
        let words = split_whitespace(line);
        let command_name = text_arg(&words, 0, "");
        let name = lowercase(command_name.as_str());
        Self::build(data_model, name.as_str(), &words, numbers)
    }
}

} // verus!
