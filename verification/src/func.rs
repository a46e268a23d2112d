//! A function call: the function's name and its arguments.

use vstd::prelude::*;
use crate::args::ArgList;
use crate::color_scheme::AnsiColorScheme;
use crate::colored::DebugAnsiColored;
use crate::debug_text::DebugText;
use crate::writer::{write_piece, TextSink, WriteError};

verus! {

/// A function's name and the arguments it was called with.
#[derive(Clone, Eq, PartialEq, Ord, PartialOrd, Hash)]
pub struct UnwindContextFunc<Args> {
    /// The name of the function.
    pub name: &'static str,
    /// The arguments, as a list built of pairs.
    pub args: Args,
}

impl<Args> UnwindContextFunc<Args> {
    /// A call of the function `name` with the arguments `args`. Nothing is
    /// rendered yet.
    pub fn new(name: &'static str, args: Args) -> (func: Self)
        ensures
            func.name == name,
            func.args == args,
    {
        Self { name, args }
    }
}

/// The plain rendering of a call: `fn`, the name, and the joined arguments
/// in parentheses.
pub open spec fn func_text(name: Seq<char>, args: Seq<char>) -> Seq<char> {
    seq!['f', 'n', ' '] + name + seq!['('] + args + seq![')']
}

/// The colourised rendering of a call: the keyword, the name and each
/// parenthesis behind the styling sequence of its kind, and the default
/// sequence behind the opening parenthesis and at the end.
pub open spec fn colored_func_text(
    scheme: AnsiColorScheme,
    name: Seq<char>,
    args: Seq<char>,
) -> Seq<char> {
    scheme.fn_keyword@ + seq!['f', 'n', ' '] + scheme.func_name@ + name + scheme.func_braces@
        + seq!['('] + scheme.default@ + args + scheme.func_braces@ + seq![')'] + scheme.default@
}

impl<Args: ArgList> DebugText for UnwindContextFunc<Args> {
    open spec fn debug_text(&self) -> Seq<char> {
        func_text(self.name@, crate::args::join_comma(self.args.texts()))
    }

    fn fmt<W: TextSink>(&self, w: &mut W) -> (r: Result<(), WriteError>) {
        let ghost before = *w;
        let ghost args = crate::args::join_comma(self.args.texts());
        let ghost kw = seq!['f', 'n', ' '];
        let ghost open = seq!['('];
        let ghost close = seq![')'];
        let ghost empty = Seq::<char>::empty();
        let ghost total = func_text(self.name@, args);
        proof {
            crate::writer::lemma_progress_start(before);
            crate::args::lemma_join_from_is_join_comma(self.args.texts());
            reveal_strlit("fn ");
            reveal_strlit("(");
            reveal_strlit(")");
            assert("fn "@ =~= kw);
            assert("("@ =~= open);
            assert(")"@ =~= close);
            assert(total =~= empty + kw + (self.name@ + open + args + close));
            assert(total =~= empty + kw + self.name@ + (open + args + close));
            assert(total =~= empty + kw + self.name@ + open + (args + close));
            assert(total =~= empty + kw + self.name@ + open + args + close);
            assert(empty + kw + self.name@ + open + args + close + empty =~= total);
        }
        write_piece(
            w,
            "fn ",
            Ghost(before),
            Ghost(empty),
            Ghost(self.name@ + open + args + close),
        )?;
        write_piece(w, self.name, Ghost(before), Ghost(empty + kw), Ghost(open + args + close))?;
        write_piece(w, "(", Ghost(before), Ghost(empty + kw + self.name@), Ghost(args + close))?;
        let ghost mid = *w;
        let r = self.args.fmt_items(w, false);
        proof {
            crate::writer::lemma_progress_step(
                before,
                mid,
                *w,
                r,
                empty + kw + self.name@ + open,
                args,
                close,
            );
        }
        if r.is_err() {
            return r;
        }
        let r = write_piece(
            w,
            ")",
            Ghost(before),
            Ghost(empty + kw + self.name@ + open + args),
            Ghost(empty),
        );
        r
    }
}

impl<Args: ArgList> DebugAnsiColored for UnwindContextFunc<Args> {
    open spec fn colored_text(&self, scheme: AnsiColorScheme) -> Seq<char> {
        colored_func_text(
            scheme,
            self.name@,
            crate::args::join_comma(self.args.colored_texts(scheme)),
        )
    }

    proof fn lemma_blank_is_plain(&self, scheme: AnsiColorScheme) {
        self.args.lemma_blank_is_plain(scheme);
        let args = crate::args::join_comma(self.args.texts());
        assert(scheme.fn_keyword@ =~= Seq::<char>::empty());
        assert(scheme.func_name@ =~= Seq::<char>::empty());
        assert(scheme.func_braces@ =~= Seq::<char>::empty());
        assert(scheme.default@ =~= Seq::<char>::empty());
        assert(colored_func_text(scheme, self.name@, args) =~= func_text(self.name@, args));
    }

    fn fmt_colored<W: TextSink>(&self, w: &mut W, color_scheme: &AnsiColorScheme) -> (r: Result<
        (),
        WriteError,
    >) {
        let ghost before = *w;
        let ghost scheme = *color_scheme;
        let ghost args = crate::args::join_comma(self.args.colored_texts(scheme));
        let ghost kw = seq!['f', 'n', ' '];
        let ghost open = seq!['('];
        let ghost close = seq![')'];
        let ghost empty = Seq::<char>::empty();
        let ghost total = colored_func_text(scheme, self.name@, args);
        let ghost t1 = scheme.fn_keyword@;
        let ghost t2 = t1 + kw;
        let ghost t3 = t2 + scheme.func_name@;
        let ghost t4 = t3 + self.name@;
        let ghost t5 = t4 + scheme.func_braces@;
        let ghost t6 = t5 + open;
        let ghost t7 = t6 + scheme.default@;
        let ghost t8 = t7 + args;
        let ghost t9 = t8 + scheme.func_braces@;
        let ghost t10 = t9 + close;
        let ghost r10 = scheme.default@;
        let ghost r9 = close + r10;
        let ghost r8 = scheme.func_braces@ + r9;
        let ghost r7 = args + r8;
        let ghost r6 = scheme.default@ + r7;
        let ghost r5 = open + r6;
        let ghost r4 = scheme.func_braces@ + r5;
        let ghost r3 = self.name@ + r4;
        let ghost r2 = scheme.func_name@ + r3;
        let ghost r1 = kw + r2;
        proof {
            crate::writer::lemma_progress_start(before);
            crate::args::lemma_join_from_is_join_comma(self.args.colored_texts(scheme));
            reveal_strlit("fn ");
            reveal_strlit("(");
            reveal_strlit(")");
            assert("fn "@ =~= kw);
            assert("("@ =~= open);
            assert(")"@ =~= close);
            assert(total =~= empty + t1 + r1);
            assert(total =~= t1 + kw + r2);
            assert(total =~= t2 + scheme.func_name@ + r3);
            assert(total =~= t3 + self.name@ + r4);
            assert(total =~= t4 + scheme.func_braces@ + r5);
            assert(total =~= t5 + open + r6);
            assert(total =~= t6 + scheme.default@ + r7);
            assert(total =~= t7 + args + r8);
            assert(total =~= t8 + scheme.func_braces@ + r9);
            assert(total =~= t9 + close + r10);
            assert(total =~= t10 + scheme.default@ + empty);
            assert(total =~= t10 + scheme.default@);
            assert(empty + t1 =~= t1);
        }
        write_piece(w, color_scheme.fn_keyword, Ghost(before), Ghost(empty), Ghost(r1))?;
        write_piece(w, "fn ", Ghost(before), Ghost(t1), Ghost(r2))?;
        write_piece(w, color_scheme.func_name, Ghost(before), Ghost(t2), Ghost(r3))?;
        write_piece(w, self.name, Ghost(before), Ghost(t3), Ghost(r4))?;
        write_piece(w, color_scheme.func_braces, Ghost(before), Ghost(t4), Ghost(r5))?;
        write_piece(w, "(", Ghost(before), Ghost(t5), Ghost(r6))?;
        write_piece(w, color_scheme.default, Ghost(before), Ghost(t6), Ghost(r7))?;
        let ghost mid = *w;
        let r = self.args.fmt_items_colored(w, color_scheme, false);
        proof {
            crate::writer::lemma_progress_step(before, mid, *w, r, t7, args, r8);
        }
        if r.is_err() {
            return r;
        }
        write_piece(w, color_scheme.func_braces, Ghost(before), Ghost(t8), Ghost(r9))?;
        write_piece(w, ")", Ghost(before), Ghost(t9), Ghost(r10))?;
        write_piece(w, color_scheme.default, Ghost(before), Ghost(t10), Ghost(empty))
    }
}

} // verus!
