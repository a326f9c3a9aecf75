use vstd::prelude::*;

verus! {

// ----------------------------------------------------------------------------
// The abstract document.
//
// A document is built from literal text, hard line breaks, indentation
// scopes and concatenation, and flattens to text deterministically: a hard
// break always breaks, and an indentation scope only widens the prefix that
// follows each break inside it.
// ----------------------------------------------------------------------------

/// Ghost shape of a document: what the contracts speak about.
pub enum DocV {
    Text(Seq<char>),
    Line,
    Nest(Box<DocV>),
    Cat(Box<DocV>, Box<DocV>),
    Nil,
}

/// One level of indentation.
pub open spec fn indent_step() -> Seq<char> {
    "    "@
}

/// The text a document flattens to, where `pre` is the prefix written after
/// each line break at the current level.
pub open spec fn doc_text(d: DocV, pre: Seq<char>) -> Seq<char>
    decreases d,
{
    match d {
        DocV::Text(s) => s,
        DocV::Line => "\n"@ + pre,
        DocV::Nest(b) => doc_text(*b, pre + indent_step()),
        DocV::Cat(a, b) => doc_text(*a, pre) + doc_text(*b, pre),
        DocV::Nil => Seq::empty(),
    }
}

/// The text of a whole document, rendered with no outer indentation.
pub open spec fn rendered(d: DocV) -> Seq<char> {
    doc_text(d, Seq::empty())
}

pub broadcast proof fn lemma_doc_text_text(s: Seq<char>, pre: Seq<char>)
    ensures
        #[trigger] doc_text(DocV::Text(s), pre) == s,
{
}

pub broadcast proof fn lemma_doc_text_line(pre: Seq<char>)
    ensures
        #[trigger] doc_text(DocV::Line, pre) == "\n"@ + pre,
{
}

pub broadcast proof fn lemma_doc_text_nest(b: Box<DocV>, pre: Seq<char>)
    ensures
        #[trigger] doc_text(DocV::Nest(b), pre) == doc_text(*b, pre + indent_step()),
{
}

pub broadcast proof fn lemma_doc_text_cat(a: Box<DocV>, b: Box<DocV>, pre: Seq<char>)
    ensures
        #[trigger] doc_text(DocV::Cat(a, b), pre) == doc_text(*a, pre) + doc_text(*b, pre),
{
}

pub broadcast proof fn lemma_doc_text_nil(pre: Seq<char>)
    ensures
        #[trigger] doc_text(DocV::Nil, pre) == Seq::<char>::empty(),
{
}

pub broadcast group group_doc_text {
    lemma_doc_text_text,
    lemma_doc_text_line,
    lemma_doc_text_nest,
    lemma_doc_text_cat,
    lemma_doc_text_nil,
}

// ----------------------------------------------------------------------------
// The executable document.
// ----------------------------------------------------------------------------

#[derive(Debug)]
pub enum Doc {
    Text(String),
    Line,
    Nest(Box<Doc>),
    Cat(Box<Doc>, Box<Doc>),
    Nil,
}

pub open spec fn doc_view(d: Doc) -> DocV
    decreases d,
{
    match d {
        Doc::Text(s) => DocV::Text(s@),
        Doc::Line => DocV::Line,
        Doc::Nest(b) => DocV::Nest(Box::new(doc_view(*b))),
        Doc::Cat(a, b) => DocV::Cat(Box::new(doc_view(*a)), Box::new(doc_view(*b))),
        Doc::Nil => DocV::Nil,
    }
}

impl View for Doc {
    type V = DocV;

    open spec fn view(&self) -> DocV {
        doc_view(*self)
    }
}

fn clone_doc(d: &Doc) -> (r: Doc)
    ensures
        r@ == d@,
    decreases *d,
{
    match d {
        Doc::Text(s) => Doc::Text(s.clone()),
        Doc::Line => Doc::Line,
        Doc::Nest(b) => Doc::Nest(Box::new(clone_doc(&**b))),
        Doc::Cat(a, b) => Doc::Cat(Box::new(clone_doc(&**a)), Box::new(clone_doc(&**b))),
        Doc::Nil => Doc::Nil,
    }
}

impl Clone for Doc {
    fn clone(&self) -> (r: Doc)
        ensures
            r@ == self@,
    {
        clone_doc(self)
    }
}

impl Doc {
    pub fn text(s: &str) -> (d: Doc)
        ensures
            d@ == DocV::Text(s@),
            forall|pre: Seq<char>| #[trigger] doc_text(d@, pre) == s@,
    {
        Doc::Text(s.to_owned())
    }

    pub fn text_owned(s: String) -> (d: Doc)
        ensures
            d@ == DocV::Text(s@),
            forall|pre: Seq<char>| #[trigger] doc_text(d@, pre) == s@,
    {
        Doc::Text(s)
    }

    pub fn space() -> (d: Doc)
        ensures
            d@ == DocV::Text(" "@),
            forall|pre: Seq<char>| #[trigger] doc_text(d@, pre) == " "@,
    {
        Doc::text(" ")
    }

    pub fn hardline() -> (d: Doc)
        ensures
            d@ == DocV::Line,
            forall|pre: Seq<char>| #[trigger] doc_text(d@, pre) == "\n"@ + pre,
    {
        Doc::Line
    }

    pub fn nil() -> (d: Doc)
        ensures
            d@ == DocV::Nil,
            forall|pre: Seq<char>| #[trigger] doc_text(d@, pre) == Seq::<char>::empty(),
    {
        Doc::Nil
    }

    /// Concatenation, described by its text.
    pub fn cat(self, other: Doc) -> (d: Doc)
        ensures
            forall|pre: Seq<char>| #[trigger]
                doc_text(d@, pre) == doc_text(self@, pre) + doc_text(other@, pre),
    {
        let d = self.append(other);
        proof {
            broadcast use group_doc_text;

        }
        d
    }

    pub fn append(self, other: Doc) -> (d: Doc)
        ensures
            d@ == DocV::Cat(Box::new(self@), Box::new(other@)),
    {
        Doc::Cat(Box::new(self), Box::new(other))
    }

    pub fn nest(self) -> (d: Doc)
        ensures
            d@ == DocV::Nest(Box::new(self@)),
    {
        Doc::Nest(Box::new(self))
    }

    pub fn surround(self, l: &str, r: &str) -> (d: Doc)
        ensures
            d@ == DocV::Cat(
                Box::new(DocV::Cat(Box::new(DocV::Text(l@)), Box::new(self@))),
                Box::new(DocV::Text(r@)),
            ),
    {
        Doc::text(l).append(self).append(Doc::text(r))
    }

    pub fn parens(self) -> (d: Doc)
        ensures
            forall|pre: Seq<char>| #[trigger]
                doc_text(d@, pre) == "("@ + doc_text(self@, pre) + ")"@,
    {
        let inner = Ghost(self@);
        let d = self.surround("(", ")");
        proof {
            broadcast use group_doc_text;

            assert forall|pre: Seq<char>| #[trigger]
                doc_text(d@, pre) == "("@ + doc_text(inner@, pre) + ")"@ by {
                assert(doc_text(d@, pre) =~= "("@ + doc_text(inner@, pre) + ")"@);
            }
        }
        d
    }

    pub fn brackets(self) -> (d: Doc)
        ensures
            forall|pre: Seq<char>| #[trigger]
                doc_text(d@, pre) == "["@ + doc_text(self@, pre) + "]"@,
    {
        let inner = Ghost(self@);
        let d = self.surround("[", "]");
        proof {
            broadcast use group_doc_text;

            assert forall|pre: Seq<char>| #[trigger]
                doc_text(d@, pre) == "["@ + doc_text(inner@, pre) + "]"@ by {
                assert(doc_text(d@, pre) =~= "["@ + doc_text(inner@, pre) + "]"@);
            }
        }
        d
    }

    pub fn braces(self) -> (d: Doc)
        ensures
            forall|pre: Seq<char>| #[trigger]
                doc_text(d@, pre) == "{"@ + doc_text(self@, pre) + "}"@,
    {
        let inner = Ghost(self@);
        let d = self.surround("{", "}");
        proof {
            broadcast use group_doc_text;

            assert forall|pre: Seq<char>| #[trigger]
                doc_text(d@, pre) == "{"@ + doc_text(inner@, pre) + "}"@ by {
                assert(doc_text(d@, pre) =~= "{"@ + doc_text(inner@, pre) + "}"@);
            }
        }
        d
    }

    pub fn quotes(self) -> (d: Doc)
        ensures
            forall|pre: Seq<char>| #[trigger]
                doc_text(d@, pre) == "\""@ + doc_text(self@, pre) + "\""@,
    {
        let inner = Ghost(self@);
        let d = self.surround("\"", "\"");
        proof {
            broadcast use group_doc_text;

            assert forall|pre: Seq<char>| #[trigger]
                doc_text(d@, pre) == "\""@ + doc_text(inner@, pre) + "\""@ by {
                assert(doc_text(d@, pre) =~= "\""@ + doc_text(inner@, pre) + "\""@);
            }
        }
        d
    }

    pub fn stars(self) -> (d: Doc)
        ensures
            forall|pre: Seq<char>| #[trigger]
                doc_text(d@, pre) == "*"@ + doc_text(self@, pre) + "*"@,
    {
        let inner = Ghost(self@);
        let d = self.surround("*", "*");
        proof {
            broadcast use group_doc_text;

            assert forall|pre: Seq<char>| #[trigger]
                doc_text(d@, pre) == "*"@ + doc_text(inner@, pre) + "*"@ by {
                assert(doc_text(d@, pre) =~= "*"@ + doc_text(inner@, pre) + "*"@);
            }
        }
        d
    }

    pub fn begin_end(self) -> (d: Doc)
        ensures
            forall|pre: Seq<char>| #[trigger]
                doc_text(d@, pre) == "begin"@ + doc_text(self@, pre) + "end"@,
    {
        let inner = Ghost(self@);
        let d = self.surround("begin", "end");
        proof {
            broadcast use group_doc_text;

            assert forall|pre: Seq<char>| #[trigger]
                doc_text(d@, pre) == "begin"@ + doc_text(inner@, pre) + "end"@ by {
                assert(doc_text(d@, pre) =~= "begin"@ + doc_text(inner@, pre) + "end"@);
            }
        }
        d
    }

    pub fn case_endcase(self) -> (d: Doc)
        ensures
            forall|pre: Seq<char>| #[trigger]
                doc_text(d@, pre) == "case"@ + doc_text(self@, pre) + "endcase"@,
    {
        let inner = Ghost(self@);
        let d = self.surround("case", "endcase");
        proof {
            broadcast use group_doc_text;

            assert forall|pre: Seq<char>| #[trigger]
                doc_text(d@, pre) == "case"@ + doc_text(inner@, pre) + "endcase"@ by {
                assert(doc_text(d@, pre) =~= "case"@ + doc_text(inner@, pre) + "endcase"@);
            }
        }
        d
    }

    pub fn func_endfunc(self) -> (d: Doc)
        ensures
            forall|pre: Seq<char>| #[trigger]
                doc_text(d@, pre) == "function"@ + doc_text(self@, pre) + "endfunction"@,
    {
        let inner = Ghost(self@);
        let d = self.surround("function", "endfunction");
        proof {
            broadcast use group_doc_text;

            assert forall|pre: Seq<char>| #[trigger]
                doc_text(d@, pre) == "function"@ + doc_text(inner@, pre) + "endfunction"@ by {
                assert(doc_text(d@, pre) =~= "function"@ + doc_text(inner@, pre)
                    + "endfunction"@);
            }
        }
        d
    }

    pub fn module_endmodule(self) -> (d: Doc)
        ensures
            forall|pre: Seq<char>| #[trigger]
                doc_text(d@, pre) == "module"@ + doc_text(self@, pre) + "endmodule"@,
    {
        let inner = Ghost(self@);
        let d = self.surround("module", "endmodule");
        proof {
            broadcast use group_doc_text;

            assert forall|pre: Seq<char>| #[trigger]
                doc_text(d@, pre) == "module"@ + doc_text(inner@, pre) + "endmodule"@ by {
                assert(doc_text(d@, pre) =~= "module"@ + doc_text(inner@, pre) + "endmodule"@);
            }
        }
        d
    }
}

// ----------------------------------------------------------------------------
// Layout helpers shared by the dialects.
// ----------------------------------------------------------------------------

/// Text of an indented block: a break, the body one level deeper, and a
/// closing break back at the current level. `inner` is the body's text at
/// the deeper level.
pub open spec fn blocked(inner: Seq<char>, pre: Seq<char>) -> Seq<char> {
    "\n"@ + (pre + indent_step()) + inner + "\n"@ + pre
}

/// `texts` joined with `sep` between consecutive entries.
pub open spec fn joined(texts: Seq<Seq<char>>, sep: Seq<char>) -> Seq<char>
    decreases texts.len(),
{
    if texts.len() == 0 {
        Seq::empty()
    } else if texts.len() == 1 {
        texts[0]
    } else {
        joined(texts.drop_last(), sep) + sep + texts.last()
    }
}

/// An indented block: a break, the body, and a closing break, with the body
/// one indentation level deeper.
pub fn block(body: Doc) -> (d: Doc)
    ensures
        forall|pre: Seq<char>| #[trigger]
            doc_text(d@, pre) == blocked(doc_text(body@, pre + indent_step()), pre),
{
    let inner = Ghost(body@);
    let d = Doc::nil().append(Doc::hardline()).append(body).nest().append(Doc::hardline());
    proof {
        broadcast use group_doc_text;

        assert forall|pre: Seq<char>| #[trigger]
            doc_text(d@, pre) == blocked(doc_text(inner@, pre + indent_step()), pre) by {
            let pre4 = pre + indent_step();
            let nl: Seq<char> = "\n"@;
            let it = doc_text(inner@, pre4);
            assert(Seq::<char>::empty() + (nl + pre4) == nl + pre4) by {
                assert(Seq::<char>::empty() + (nl + pre4) =~= nl + pre4);
            }
            assert(doc_text(d@, pre) == ((nl + pre4) + it) + (nl + pre));
            vstd::seq_lib::lemma_concat_associative((nl + pre4) + it, nl, pre);
            assert(blocked(it, pre) == (((nl + pre4) + it) + nl) + pre);
        }
    }
    d
}

/// A name followed by a braced, indented block.
#[verifier::rlimit(50)]
pub fn block_with_braces(name: Doc, body: Doc) -> (d: Doc)
    ensures
        forall|pre: Seq<char>| #[trigger]
            doc_text(d@, pre) == doc_text(name@, pre) + " "@ + "{"@ + blocked(
                doc_text(body@, pre + indent_step()),
                pre,
            ) + "}"@,
{
    let n = Ghost(name@);
    let b = Ghost(body@);
    let d = name.append(Doc::space()).append(block(body).braces());
    proof {
        broadcast use group_doc_text;

        assert forall|pre: Seq<char>| #[trigger]
            doc_text(d@, pre) == doc_text(n@, pre) + " "@ + "{"@ + blocked(
                doc_text(b@, pre + indent_step()),
                pre,
            ) + "}"@ by {
            let x = doc_text(n@, pre) + " "@;
            let bt = blocked(doc_text(b@, pre + indent_step()), pre);
            assert(doc_text(d@, pre) == x + (("{"@ + bt) + "}"@));
            vstd::seq_lib::lemma_concat_associative("{"@, bt, "}"@);
            vstd::seq_lib::lemma_concat_associative(x, "{"@, bt + "}"@);
            vstd::seq_lib::lemma_concat_associative(x + "{"@, bt, "}"@);
        }
    }
    d
}

/// A name followed by a parenthesized, indented block.
#[verifier::rlimit(50)]
pub fn block_with_parens(name: Doc, body: Doc) -> (d: Doc)
    ensures
        forall|pre: Seq<char>| #[trigger]
            doc_text(d@, pre) == doc_text(name@, pre) + " "@ + "("@ + blocked(
                doc_text(body@, pre + indent_step()),
                pre,
            ) + ")"@,
{
    let n = Ghost(name@);
    let b = Ghost(body@);
    let d = name.append(Doc::space()).append(block(body).parens());
    proof {
        broadcast use group_doc_text;

        assert forall|pre: Seq<char>| #[trigger]
            doc_text(d@, pre) == doc_text(n@, pre) + " "@ + "("@ + blocked(
                doc_text(b@, pre + indent_step()),
                pre,
            ) + ")"@ by {
            let x = doc_text(n@, pre) + " "@;
            let bt = blocked(doc_text(b@, pre + indent_step()), pre);
            assert(doc_text(d@, pre) == x + (("("@ + bt) + ")"@));
            vstd::seq_lib::lemma_concat_associative("("@, bt, ")"@);
            vstd::seq_lib::lemma_concat_associative(x, "("@, bt + ")"@);
            vstd::seq_lib::lemma_concat_associative(x + "("@, bt, ")"@);
        }
    }
    d
}

/// The documents' texts at a given indentation prefix.
pub open spec fn texts_at(ds: Seq<DocV>, pre: Seq<char>) -> Seq<Seq<char>> {
    ds.map_values(|d: DocV| doc_text(d, pre))
}

/// Views of a sequence of documents.
pub open spec fn doc_views(ds: Seq<Doc>) -> Seq<DocV> {
    ds.map_values(|d: Doc| doc_view(d))
}

/// The documents joined with `sep` between consecutive entries.
pub fn intersperse(items: Vec<Doc>, sep: Doc) -> (d: Doc)
    ensures
        forall|pre: Seq<char>| #[trigger]
            doc_text(d@, pre) == joined(texts_at(doc_views(items@), pre), doc_text(sep@, pre)),
{
    if items.len() == 0 {
        proof {
            assert forall|pre: Seq<char>| #[trigger]
                doc_text(DocV::Nil, pre) == joined(
                    texts_at(doc_views(items@), pre),
                    doc_text(sep@, pre),
                ) by {
                assert(texts_at(doc_views(items@), pre) =~= Seq::<Seq<char>>::empty());
            }
        }
        return Doc::Nil;
    }
    let mut d = items[0].clone();
    let mut i: usize = 1;
    proof {
        assert forall|pre: Seq<char>| #[trigger]
            doc_text(d@, pre) == joined(
                texts_at(doc_views(items@.take(1)), pre),
                doc_text(sep@, pre),
            ) by {
            assert(texts_at(doc_views(items@.take(1)), pre) =~= seq![doc_text(items@[0]@, pre)]);
        }
    }
    while i < items.len()
        invariant
            1 <= i <= items@.len(),
            forall|pre: Seq<char>| #[trigger]
                doc_text(d@, pre) == joined(
                    texts_at(doc_views(items@.take(i as int)), pre),
                    doc_text(sep@, pre),
                ),
        decreases items@.len() - i,
    {
        let prev = Ghost(d@);
        d = d.append(sep.clone()).append(items[i].clone());
        proof {
            broadcast use group_doc_text;

            assert forall|pre: Seq<char>| #[trigger]
                doc_text(d@, pre) == joined(
                    texts_at(doc_views(items@.take(i as int + 1)), pre),
                    doc_text(sep@, pre),
                ) by {
                let ts = texts_at(doc_views(items@.take(i as int + 1)), pre);
                assert(ts.drop_last() =~= texts_at(doc_views(items@.take(i as int)), pre));
                assert(ts.last() == doc_text(items@[i as int]@, pre));
                assert(doc_text(d@, pre) == doc_text(prev@, pre) + doc_text(sep@, pre)
                    + doc_text(items@[i as int]@, pre));
            }
        }
        i += 1;
    }
    proof {
        assert(items@.take(items@.len() as int) =~= items@);
    }
    d
}

// ----------------------------------------------------------------------------
// Rendering.
// ----------------------------------------------------------------------------

fn render_into(d: &Doc, pre: &String, out: &mut String)
    ensures
        final(out)@ == old(out)@ + doc_text(d@, pre@),
    decreases *d,
{
    match d {
        Doc::Text(s) => {
            out.append(s.as_str());
        }
        Doc::Line => {
            out.append("\n");
            out.append(pre.as_str());
            proof {
                assert(old(out)@ + ("\n"@ + pre@) =~= (old(out)@ + "\n"@) + pre@);
            }
        }
        Doc::Nest(b) => {
            let mut deeper = pre.clone();
            deeper.append("    ");
            render_into(&**b, &deeper, out);
        }
        Doc::Cat(a, b) => {
            render_into(&**a, pre, out);
            let ghost mid = out@;
            render_into(&**b, pre, out);
            proof {
                assert(old(out)@ + (doc_text(a@, pre@) + doc_text(b@, pre@)) =~= (old(out)@
                    + doc_text(a@, pre@)) + doc_text(b@, pre@));
            }
        }
        Doc::Nil => {
            proof {
                assert(old(out)@ + Seq::<char>::empty() =~= old(out)@);
            }
        }
    }
}

/// Flattens a document to its text.
pub fn doc_to_string(d: &Doc) -> (r: String)
    ensures
        r@ == rendered(d@),
{
    let mut out = String::new();
    let pre = String::new();
    render_into(d, &pre, &mut out);
    proof {
        assert(Seq::<char>::empty() + doc_text(d@, Seq::<char>::empty()) =~= doc_text(
            d@,
            Seq::<char>::empty(),
        ));
    }
    out
}

} // verus!
