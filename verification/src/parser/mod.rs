//! Syntactic analysis: tokens to a populated module.
pub mod error;
pub mod expression;
pub mod model;
pub mod token_matcher;

pub use error::{Error, ErrorKind, ErrorKindModel, ErrorModel};

use crate::lang::{Expression, Import, Module, Symbol, Type, TypeModel};
use crate::parser::model::{DeclarationKind, DeclarationModel, ImportStep, Namespace, Outcome};
use crate::text::{chars_of, collect_chars, last_segment_of};
use crate::parser::token_matcher::TokenMatcher;
use crate::tokenizer::laws::{lemma_peek_idempotent, lemma_reads_shrink, measure};
use crate::tokenizer::model::{is_empty, peek, StreamModel};
use crate::tokenizer::{Token, TokenModel, TokenStream, TokenValue, TokenValueModel};
use vstd::prelude::*;
use vstd::string::*;

verus! {

/// Mathematical value of the result of a step that returns nothing.
pub open spec fn unit_view(r: Result<(), Error>) -> Result<(), ErrorModel> {
    match r {
        Ok(_) => Ok(()),
        Err(e) => Err(e@),
    }
}

/// Mathematical value of the result of a step that returns a flag.
pub open spec fn flag_view(r: Result<bool, Error>) -> Result<bool, ErrorModel> {
    match r {
        Ok(b) => Ok(b),
        Err(e) => Err(e@),
    }
}

/// Mathematical value of the result of a step that returns a token.
pub open spec fn token_view(r: Result<Token, Error>) -> Result<TokenModel, ErrorModel> {
    match r {
        Ok(t) => Ok(t@),
        Err(e) => Err(e@),
    }
}

/// Mathematical value of the result of a step that returns a type.
pub open spec fn type_view(r: Result<Type, Error>) -> Result<TypeModel, ErrorModel> {
    match r {
        Ok(t) => Ok(t@),
        Err(e) => Err(e@),
    }
}

/// The mathematical values of a sequence of token values.
pub open spec fn value_models(values: Seq<TokenValue>) -> Seq<TokenValueModel> {
    Seq::new(values.len(), |i: int| values[i]@)
}

/// Checks that the next token is one that `matcher` matches, and leaves it
/// in the stream.
pub fn ensure_next_token(
    token_stream: &mut TokenStream,
    matcher: &TokenMatcher,
    error_message: &str,
) -> (r: Result<(), Error>)
    requires
        old(token_stream).wf(),
    ensures
        final(token_stream).wf(),
        (unit_view(r), final(token_stream)@) == model::ensure_next_token(
            old(token_stream)@,
            *matcher,
            error_message@,
        ),
{
    match token_stream.peek() {
        Some(Ok(t)) => {
            if matcher.matches(&t) {
                Ok(())
            } else {
                Err(Error::unexpected_token(t, String::from_str(error_message)))
            }
        },
        Some(Err(e)) => Err(Error::from_tokenizer(e)),
        None => Err(
            Error::new(token_stream, ErrorKind::UnexpectedEOF, String::from_str(error_message)),
        ),
    }
}

/// Consumes the next token, which must be one that `matcher` matches.
pub fn consume_token(
    token_stream: &mut TokenStream,
    matcher: &TokenMatcher,
    error_message: &str,
) -> (r: Result<Token, Error>)
    requires
        old(token_stream).wf(),
    ensures
        final(token_stream).wf(),
        (token_view(r), final(token_stream)@) == model::consume_token(
            old(token_stream)@,
            *matcher,
            error_message@,
        ),
{
    match token_stream.next_token() {
        Some(Ok(t)) => {
            if matcher.matches(&t) {
                Ok(t)
            } else {
                Err(Error::unexpected_token(t, String::from_str(error_message)))
            }
        },
        Some(Err(e)) => Err(Error::from_tokenizer(e)),
        None => Err(Error::new(token_stream, ErrorKind::UnexpectedEOF, String::new())),
    }
}

/// Consumes tokens up to the first one that `matcher` matches, or up to the
/// end of the input.
pub fn skip_until(token_stream: &mut TokenStream, matcher: &TokenMatcher) -> (r: Result<(), Error>)
    requires
        old(token_stream).wf(),
    ensures
        final(token_stream).wf(),
        (unit_view(r), final(token_stream)@) == model::skip_until(old(token_stream)@, *matcher),
{
    while !token_stream.is_empty()
        invariant
            token_stream.wf(),
            model::skip_until(token_stream@, *matcher) == model::skip_until(
                old(token_stream)@,
                *matcher,
            ),
        decreases measure(token_stream@),
    {
        proof {
            lemma_reads_shrink(token_stream@);
            lemma_reads_shrink(peek(token_stream@).1);
        }
        match token_stream.peek() {
            Some(Ok(t)) => {
                if matcher.matches(&t) {
                    return Ok(());
                }
                let _ = token_stream.next_token();
            },
            Some(Err(e)) => {
                return Err(Error::from_tokenizer(e));
            },
            None => {},
        }
    }
    Ok(())
}

/// Consumes the tokens that `matcher` matches, up to the first one that it
/// does not match.
pub fn skip_while(token_stream: &mut TokenStream, matcher: TokenMatcher) -> (r: Result<(), Error>)
    requires
        old(token_stream).wf(),
    ensures
        final(token_stream).wf(),
        (unit_view(r), final(token_stream)@) == model::skip_while(old(token_stream)@, matcher),
{
    skip_until(token_stream, &TokenMatcher::Not(Box::new(matcher)))
}

/// Whether `value` is among `values`.
fn value_among(value: &TokenValue, values: &Vec<TokenValue>) -> (r: bool)
    ensures
        r == value_models(values@).contains(value@),
{
    let mut i: usize = 0;
    while i < values.len()
        invariant
            i <= values@.len(),
            forall|k: int| 0 <= k < i ==> value_models(values@)[k] != value@,
        decreases values@.len() - i,
    {
        if values[i].same_as(value) {
            assert(value_models(values@)[i as int] == value@);
            return true;
        }
        i += 1;
    }
    false
}

/// Looks for the keyword `keyword`, spelled `name`, that opens an optional
/// block.
///
/// Newlines before it are skipped. Returns whether the block is present, and
/// consumes the keyword if it is. Before a token among
/// `non_error_keywords`, and at the end of the input, the block is absent.
/// Any other token is an error.
pub fn scan_for_keyword(
    token_stream: &mut TokenStream,
    keyword: TokenValue,
    name: &str,
    non_error_keywords: Vec<TokenValue>,
) -> (r: Result<bool, Error>)
    requires
        old(token_stream).wf(),
    ensures
        final(token_stream).wf(),
        (flag_view(r), final(token_stream)@) == model::scan_for_keyword(
            old(token_stream)@,
            keyword@,
            name@,
            value_models(non_error_keywords@),
        ),
{
    match skip_while(token_stream, TokenMatcher::Newline) {
        Err(e) => {
            return Err(e);
        },
        Ok(_) => {},
    }
    match token_stream.peek() {
        Some(Ok(t)) => {
            if t.value.same_as(&keyword) {
                let _ = token_stream.next_token();
                return Ok(true);
            }
            if value_among(&t.value, &non_error_keywords) {
                return Ok(false);
            }
            let mut message = String::from_str("while looking for `");
            message.append(name);
            message.append("` block");
            Err(Error::unexpected_token(t, message))
        },
        Some(Err(e)) => Err(Error::from_tokenizer(e)),
        None => Ok(false),  // EOF
    }
}

/// Parses the name of a type.
pub fn parse_type(token_stream: &mut TokenStream) -> (r: Result<Type, Error>)
    requires
        old(token_stream).wf(),
    ensures
        final(token_stream).wf(),
        (type_view(r), final(token_stream)@) == model::parse_type(old(token_stream)@),
{
    match consume_token(token_stream, &TokenMatcher::Identifier, "expected type definition") {
        Ok(ttype) => match &ttype.value {
            TokenValue::Identifier(s) => Ok(Type::from_name(s.as_str())),
            _ => Ok(Type::from_name(ttype.text.as_str())),
        },
        Err(e) => Err(e),
    }
}

/// One parsed declaration of a `const` or `var` block.
pub struct Declaration {
    pub identifier: String,
    pub ttype: Type,
    pub value: Expression,
    pub first_token: Token,
}

impl View for Declaration {
    type V = DeclarationModel;

    open spec fn view(&self) -> DeclarationModel {
        DeclarationModel {
            identifier: self.identifier@,
            ttype: self.ttype@,
            value: self.value@,
            first_token: self.first_token@,
        }
    }
}

/// The mathematical values of a sequence of declarations.
pub open spec fn declaration_models(decls: Seq<Declaration>) -> Seq<DeclarationModel> {
    Seq::new(decls.len(), |i: int| decls[i]@)
}

/// The mathematical values of a sequence of tokens.
pub open spec fn token_models(tokens: Seq<Token>) -> Seq<TokenModel> {
    Seq::new(tokens.len(), |i: int| tokens[i]@)
}

/// Mathematical value of the result of parsing one declaration.
pub open spec fn declaration_view(r: Result<Declaration, Error>) -> Result<
    DeclarationModel,
    ErrorModel,
> {
    match r {
        Ok(d) => Ok(d@),
        Err(e) => Err(e@),
    }
}

/// Mathematical value of the result of parsing a block of declarations.
pub open spec fn declarations_view(r: Result<Vec<Declaration>, Error>) -> Result<
    Seq<DeclarationModel>,
    ErrorModel,
> {
    match r {
        Ok(list) => Ok(declaration_models(list@)),
        Err(e) => Err(e@),
    }
}

/// Parses one declaration: an identifier, the name of a type, `=`, and an
/// expression that ends at a newline.
pub fn parse_declaration(token_stream: &mut TokenStream) -> (r: Result<Declaration, Error>)
    requires
        old(token_stream).wf(),
    ensures
        final(token_stream).wf(),
        (declaration_view(r), final(token_stream)@) == model::parse_declaration(
            old(token_stream)@,
        ),
{
    let ident = match consume_token(
        token_stream,
        &TokenMatcher::Identifier,
        "expected identifier or `}`",
    ) {
        Ok(t) => t,
        Err(e) => {
            return Err(e);
        },
    };
    let ttype = match parse_type(token_stream) {
        Ok(t) => t,
        Err(e) => {
            return Err(e);
        },
    };
    match consume_token(token_stream, &TokenMatcher::Assign, "expected `=`") {
        Ok(_) => {},
        Err(e) => {
            return Err(e);
        },
    }
    let value = match expression::parse(token_stream, &TokenMatcher::Newline) {
        Ok(v) => v,
        Err(e) => {
            return Err(e);
        },
    };
    let identifier = match &ident.value {
        TokenValue::Identifier(s) => s.clone(),
        _ => ident.text.clone(),
    };
    Ok(Declaration { identifier, ttype, value, first_token: ident })
}

/// Mathematical value of the result of looking for the next declaration.
pub open spec fn next_declaration_view(r: Result<Option<Declaration>, Error>) -> Result<
    Option<DeclarationModel>,
    ErrorModel,
> {
    match r {
        Ok(Some(d)) => Ok(Some(d@)),
        Ok(None) => Ok(None),
        Err(e) => Err(e@),
    }
}

/// Parses the next declaration of a block, past any newlines. Returns
/// nothing at the closing brace of the block, which is consumed.
pub fn next_declaration(token_stream: &mut TokenStream) -> (r: Result<Option<Declaration>, Error>)
    requires
        old(token_stream).wf(),
    ensures
        final(token_stream).wf(),
        (next_declaration_view(r), final(token_stream)@) == model::next_declaration(
            old(token_stream)@,
        ),
{
    match skip_while(token_stream, TokenMatcher::Newline) {
        Ok(_) => {},
        Err(e) => {
            return Err(e);
        },
    }
    match token_stream.peek() {
        Some(Ok(t)) => match t.value {
            TokenValue::CloseBrace => {
                let _ = token_stream.next_token();
                return Ok(None);
            },
            _ => {},
        },
        Some(Err(e)) => {
            return Err(Error::from_tokenizer(e));
        },
        None => {
            return Err(Error::new(token_stream, ErrorKind::UnexpectedEOF, String::new()));
        },
    }
    match parse_declaration(token_stream) {
        Ok(decl) => Ok(Some(decl)),
        Err(e) => Err(e),
    }
}

/// parse_declaration_block parses the "body" of a var or const block,
/// including the opening and closing brace.
pub fn parse_declaration_block(token_stream: &mut TokenStream) -> (r: Result<
    Vec<Declaration>,
    Error,
>)
    requires
        old(token_stream).wf(),
    ensures
        final(token_stream).wf(),
        (declarations_view(r), final(token_stream)@) == model::parse_declaration_block(
            old(token_stream)@,
        ),
{
    match skip_while(token_stream, TokenMatcher::Newline) {
        Ok(_) => {},
        Err(e) => {
            return Err(e);
        },
    }
    match consume_token(
        token_stream,
        &TokenMatcher::OpenBrace,
        "const and var blocks should start with a `{`",
    ) {
        Ok(_) => {},
        Err(e) => {
            return Err(e);
        },
    }
    let ghost body = token_stream@;
    let mut res: Vec<Declaration> = Vec::new();
    assert(declaration_models(res@) =~= Seq::<DeclarationModel>::empty());
    loop
        invariant
            token_stream.wf(),
            model::parse_declarations(token_stream@, declaration_models(res@))
                == model::parse_declarations(body, Seq::<DeclarationModel>::empty()),
            model::parse_declaration_block(old(token_stream)@) == model::parse_declarations(
                body,
                Seq::<DeclarationModel>::empty(),
            ),
        decreases measure(token_stream@),
    {
        let ghost before = res@;
        proof {
            model::lemma_next_declaration_shrinks(token_stream@);
        }
        match next_declaration(token_stream) {
            Ok(Some(decl)) => {
                res.push(decl);
                assert(declaration_models(res@) =~= declaration_models(before).push(decl@));
            },
            Ok(None) => {
                return Ok(res);
            },
            Err(e) => {
                return Err(e);
            },
        }
    }
}

/// Builds modules from sources: one parser fills one module.
pub struct Parser {
    module: Module,
}

impl View for Parser {
    type V = Namespace;

    /// The namespace of the module that the parser fills.
    closed spec fn view(&self) -> Namespace {
        self.module@
    }
}

/// The outcome that a result, a module and a stream make.
pub open spec fn outcome(r: Result<(), Error>, module: Namespace, stream: StreamModel) -> Outcome {
    Outcome { result: unit_view(r), module, stream }
}

/// The text of an optional path.
pub open spec fn path_text(path: Option<String>) -> Option<Seq<char>> {
    match path {
        Some(p) => Some(p@),
        None => None,
    }
}

impl Parser {
    /// Whether the module that the parser fills is in order.
    pub closed spec fn wf(&self) -> bool {
        self.module.wf()
    }

    /// The name of the module that the parser fills.
    pub closed spec fn identifier(&self) -> Seq<char> {
        self.module.identifier()
    }

    /// A parser that fills a new, empty module named `module_id`.
    pub fn new(module_id: String) -> (r: Self)
        ensures
            r.wf(),
            r@ == Map::<Seq<char>, crate::lang::SymbolModel>::empty(),
            r.identifier() == module_id@,
    {
        Parser { module: Module::new(module_id) }
    }

    /// Hands the module over.
    pub fn finalize(self) -> (r: Result<Module, Error>)
        requires
            self.wf(),
        ensures
            r is Ok,
            r->Ok_0.wf(),
            r->Ok_0@ == self@,
            r->Ok_0.identifier() == self.identifier(),
    {
        Ok(self.module)
    }

    /// Installs the import whose path `current_parts` spell, under `alias`
    /// or, where that is empty, under the last segment of the path.
    fn complete_import(
        &mut self,
        token_stream: &TokenStream,
        current_parts: &mut Vec<Token>,
        alias: &str,
    ) -> (r: Result<(), Error>)
        requires
            old(self).wf(),
        ensures
            final(self).wf(),
            final(self).identifier() == old(self).identifier(),
            match model::complete_import(
                old(self)@,
                token_stream@,
                token_models(old(current_parts)@),
                alias@,
            ) {
                Ok(updated) => r is Ok && final(self)@ == updated && final(current_parts)@.len()
                    == 0,
                Err(e) => r is Err && r->Err_0@ == e && final(self)@ == old(self)@,
            },
    {
        let ghost parts = token_models(current_parts@);
        let mut import: Vec<char> = Vec::new();
        let mut i: usize = 0;
        proof {
            assert(parts.take(0) =~= Seq::<TokenModel>::empty());
        }
        while i < current_parts.len()
            invariant
                i <= current_parts@.len(),
                parts == token_models(current_parts@),
                import@ == model::joined_text(parts.take(i as int)),
            decreases current_parts@.len() - i,
        {
            let mut text = chars_of(current_parts[i].text.as_str());
            proof {
                assert(parts.take(i + 1).drop_last() =~= parts.take(i as int));
                assert(parts.take(i + 1).last() == parts[i as int]);
            }
            import.append(&mut text);
            i += 1;
        }
        proof {
            assert(parts.take(parts.len() as int) =~= parts);
        }
        let path = collect_chars(&import);
        if import.len() > 0 && (import[import.len() - 1] == '.' || import[0] == '.') {
            return Err(
                Error::new(
                    token_stream,
                    ErrorKind::InvalidImport(path),
                    String::from_str("import cannot start or end with '.'"),
                ),
            );
        }
        if import.len() == 0 || current_parts.len() == 0 {
            return Err(
                Error::new(
                    token_stream,
                    ErrorKind::InvalidImport(path),
                    String::from_str("empty import"),
                ),
            );
        }
        let first_token = current_parts[0].clone();
        current_parts.clear();
        let ident: String = if alias.is_empty() {
            collect_chars(&last_segment_of(&import))
        } else {
            String::from_str(alias)
        };
        let import = Import::new(path, ident.clone(), first_token);
        match self.module.import(import) {
            Ok(_) => Ok(()),
            Err(_) => Err(Error::redefined_symbol(token_stream, ident.as_str())),
        }
    }

    /// Reads the alias of an import, after `as`, and what ends it.
    fn import_alias(
        &mut self,
        token_stream: &mut TokenStream,
        current_parts: &mut Vec<Token>,
    ) -> (r: Result<(), Error>)
        requires
            old(self).wf(),
            old(token_stream).wf(),
        ensures
            final(self).wf(),
            final(token_stream).wf(),
            final(self).identifier() == old(self).identifier(),
            step_view(
                match r {
                    Ok(_) => Ok(false),
                    Err(e) => Err(e),
                },
                final(self)@,
                final(token_stream)@,
                token_models(final(current_parts)@),
            ) == model::import_alias(
                old(self)@,
                old(token_stream)@,
                token_models(old(current_parts)@),
            ),
    {
        let alias = match consume_token(
            token_stream,
            &TokenMatcher::Identifier,
            "while parsing import alias",
        ) {
            Ok(t) => t,
            Err(e) => {
                return Err(e);
            },
        };
        match self.complete_import(token_stream, current_parts, alias.text.as_str()) {
            Ok(_) => {},
            Err(e) => {
                return Err(e);
            },
        }
        assert(token_models(current_parts@) =~= Seq::<TokenModel>::empty());
        let ghost s2 = token_stream@;
        let end = TokenMatcher::Either(
            Box::new(
                TokenMatcher::Either(Box::new(TokenMatcher::Comma), Box::new(TokenMatcher::Newline)),
            ),
            Box::new(TokenMatcher::CloseBrace),
        );
        match ensure_next_token(token_stream, &end, "while parsing import alias") {
            Ok(_) => {},
            Err(e) => {
                return Err(e);
            },
        }
        proof {
            lemma_peek_idempotent(s2);
        }
        match token_stream.peek() {
            Some(Ok(next)) => match next.value {
                TokenValue::CloseBrace => {},
                _ => {
                    let _ = token_stream.next_token();
                },
            },
            _ => {},
        }
        Ok(())
    }

    /// Reads one token of a `use` block. Returns whether the block has
    /// ended.
    fn import_step(
        &mut self,
        token_stream: &mut TokenStream,
        current_parts: &mut Vec<Token>,
    ) -> (r: Result<bool, Error>)
        requires
            old(self).wf(),
            old(token_stream).wf(),
        ensures
            final(self).wf(),
            final(token_stream).wf(),
            final(self).identifier() == old(self).identifier(),
            step_view(r, final(self)@, final(token_stream)@, token_models(final(current_parts)@))
                == model::import_step(
                old(self)@,
                old(token_stream)@,
                token_models(old(current_parts)@),
            ),
    {
        let ghost before = current_parts@;
        proof {
            reveal_strlit("");
            assert(""@ =~= Seq::<char>::empty());
        }
        let t = match token_stream.next_token() {
            Some(Ok(t)) => t,
            Some(Err(e)) => {
                return Err(Error::from_tokenizer(e));
            },
            None => {
                return Err(
                    Error::new(
                        token_stream,
                        ErrorKind::UnexpectedEOF,
                        String::from_str("missing '}' after 'use' block"),
                    ),
                );
            },
        };
        match &t.value {
            TokenValue::CloseBrace => {
                if current_parts.len() > 0 {
                    match self.complete_import(token_stream, current_parts, "") {
                        Ok(_) => {},
                        Err(e) => {
                            return Err(e);
                        },
                    }
                }
                Ok(true)
            },
            TokenValue::KeywordAs => match self.import_alias(token_stream, current_parts) {
                Ok(_) => Ok(false),
                Err(e) => Err(e),
            },
            TokenValue::Newline => {
                if current_parts.len() > 0 {
                    match self.complete_import(token_stream, current_parts, "") {
                        Ok(_) => {},
                        Err(e) => {
                            return Err(e);
                        },
                    }
                    assert(token_models(current_parts@) =~= Seq::<TokenModel>::empty());
                }
                Ok(false)
            },
            TokenValue::Comma => {
                match self.complete_import(token_stream, current_parts, "") {
                    Ok(_) => {},
                    Err(e) => {
                        return Err(e);
                    },
                }
                assert(token_models(current_parts@) =~= Seq::<TokenModel>::empty());
                Ok(false)
            },
            TokenValue::Identifier(_) => {
                current_parts.push(t);
                assert(token_models(current_parts@) =~= token_models(before).push(t@));
                Ok(false)
            },
            TokenValue::Dot => {
                current_parts.push(t);
                assert(token_models(current_parts@) =~= token_models(before).push(t@));
                Ok(false)
            },
            _ => Err(Error::unexpected_token(t, String::from_str("while parsing `use` block"))),
        }
    }

    /// Parses the `use` block, if the source has one.
    fn maybe_parse_use_block(&mut self, token_stream: &mut TokenStream) -> (r: Result<(), Error>)
        requires
            old(self).wf(),
            old(token_stream).wf(),
        ensures
            final(self).wf(),
            final(token_stream).wf(),
            final(self).identifier() == old(self).identifier(),
            outcome(r, final(self)@, final(token_stream)@) == model::maybe_parse_use_block(
                old(self)@,
                old(token_stream)@,
            ),
    {
        let followers = vec![
            TokenValue::KeywordFunc,
            TokenValue::KeywordTest,
            TokenValue::KeywordConst,
            TokenValue::KeywordVar,
        ];
        assert(value_models(followers@) =~= model::use_block_followers());
        match scan_for_keyword(token_stream, TokenValue::KeywordUse, "use", followers) {
            Ok(present) => {
                if !present {
                    return Ok(());
                }
            },
            Err(e) => {
                return Err(e);
            },
        }
        match skip_while(token_stream, TokenMatcher::Newline) {
            Ok(_) => {},
            Err(e) => {
                return Err(e);
            },
        }
        match consume_token(
            token_stream,
            &TokenMatcher::OpenBrace,
            "use keyword should be followed by a `{`",
        ) {
            Ok(_) => {},
            Err(e) => {
                return Err(e);
            },
        }
        // Read sequence of x.y.z as w <newline> until '}'
        let mut current_parts: Vec<Token> = Vec::new();
        let ghost expected = model::maybe_parse_use_block(old(self)@, old(token_stream)@);
        assert(token_models(current_parts@) =~= Seq::<TokenModel>::empty());
        loop
            invariant
                self.wf(),
                token_stream.wf(),
                self.identifier() == old(self).identifier(),
                expected == model::maybe_parse_use_block(old(self)@, old(token_stream)@),
                model::parse_imports(self@, token_stream@, token_models(current_parts@))
                    == expected,
            decreases measure(token_stream@),
        {
            proof {
                model::lemma_import_step_shrinks(
                    self@,
                    token_stream@,
                    token_models(current_parts@),
                );
            }
            match self.import_step(token_stream, &mut current_parts) {
                Ok(done) => {
                    if done {
                        return Ok(());
                    }
                },
                Err(e) => {
                    return Err(e);
                },
            }
        }
    }

    /// Defines the declarations of a block, in order, up to the first whose
    /// name is taken.
    fn define_all(
        &mut self,
        token_stream: &TokenStream,
        decls: Vec<Declaration>,
        kind: DeclarationKind,
    ) -> (r: Result<(), Error>)
        requires
            old(self).wf(),
        ensures
            final(self).wf(),
            final(self).identifier() == old(self).identifier(),
            outcome(r, final(self)@, token_stream@) == model::define_all(
                old(self)@,
                token_stream@,
                kind,
                declaration_models(decls@),
                0,
            ),
    {
        let ghost all = declaration_models(decls@);
        let mut rest = decls;
        let ghost mut from: nat = 0;
        proof {
            assert(all.skip(0) =~= all);
        }
        while rest.len() > 0
            invariant
                self.wf(),
                self.identifier() == old(self).identifier(),
                all == declaration_models(decls@),
                from + rest@.len() == all.len(),
                declaration_models(rest@) == all.skip(from as int),
                model::define_all(self@, token_stream@, kind, all, from) == model::define_all(
                    old(self)@,
                    token_stream@,
                    kind,
                    all,
                    0,
                ),
            decreases rest@.len(),
        {
            let ghost remaining = rest@;
            let decl = rest.remove(0);
            proof {
                assert(decl@ == declaration_models(remaining)[0]);
                assert(decl@ == all.skip(from as int)[0]);
                assert forall|k: int| 0 <= k < rest@.len() implies declaration_models(rest@)[k]
                    == all.skip(from as int + 1)[k] by {
                    assert(rest@[k] == remaining[k + 1]);
                    assert(declaration_models(remaining)[k + 1] == all.skip(from as int)[k + 1]);
                }
                assert(declaration_models(rest@) =~= all.skip(from as int + 1));
            }
            let name = decl.identifier.clone();
            let symbol = match kind {
                DeclarationKind::Constant => Symbol::new_const(
                    decl.ttype,
                    decl.value,
                    decl.first_token,
                ),
                DeclarationKind::Variable => Symbol::new_var(
                    decl.ttype,
                    decl.value,
                    decl.first_token,
                ),
            };
            match self.module.define(decl.identifier, symbol) {
                Ok(_) => {},
                Err(_) => {
                    return Err(Error::redefined_symbol(token_stream, name.as_str()));
                },
            }
            proof {
                from = from + 1;
            }
        }
        Ok(())
    }

    /// Parses the `const` block, if the source has one where the stream
    /// stands.
    fn maybe_parse_const_block(&mut self, token_stream: &mut TokenStream) -> (r: Result<(), Error>)
        requires
            old(self).wf(),
            old(token_stream).wf(),
        ensures
            final(self).wf(),
            final(token_stream).wf(),
            final(self).identifier() == old(self).identifier(),
            outcome(r, final(self)@, final(token_stream)@) == model::maybe_parse_declarations(
                old(self)@,
                old(token_stream)@,
                DeclarationKind::Constant,
            ),
    {
        let followers = vec![
            TokenValue::KeywordFunc,
            TokenValue::KeywordTest,
            TokenValue::KeywordVar,
        ];
        assert(value_models(followers@) =~= model::const_block_followers());
        match scan_for_keyword(token_stream, TokenValue::KeywordConst, "const", followers) {
            Ok(present) => {
                if !present {
                    return Ok(());  // No const block
                }
            },
            Err(e) => {
                return Err(e);
            },
        }
        let consts = match parse_declaration_block(token_stream) {
            Ok(decls) => decls,
            Err(e) => {
                return Err(e);
            },
        };
        self.define_all(token_stream, consts, DeclarationKind::Constant)
    }

    /// Parses the `var` block, if the source has one where the stream
    /// stands.
    fn maybe_parse_var_block(&mut self, token_stream: &mut TokenStream) -> (r: Result<(), Error>)
        requires
            old(self).wf(),
            old(token_stream).wf(),
        ensures
            final(self).wf(),
            final(token_stream).wf(),
            final(self).identifier() == old(self).identifier(),
            outcome(r, final(self)@, final(token_stream)@) == model::maybe_parse_declarations(
                old(self)@,
                old(token_stream)@,
                DeclarationKind::Variable,
            ),
    {
        let followers = vec![TokenValue::KeywordFunc, TokenValue::KeywordTest];
        assert(value_models(followers@) =~= model::var_block_followers());
        match scan_for_keyword(token_stream, TokenValue::KeywordVar, "var", followers) {
            Ok(present) => {
                if !present {
                    return Ok(());  // No var block
                }
            },
            Err(e) => {
                return Err(e);
            },
        }
        let vars = match parse_declaration_block(token_stream) {
            Ok(decls) => decls,
            Err(e) => {
                return Err(e);
            },
        };
        self.define_all(token_stream, vars, DeclarationKind::Variable)
    }

    /// Parses what follows the blocks of a source. No top-level declaration
    /// has a grammar yet: only newlines may follow.
    fn parse_module_body(&mut self, token_stream: &mut TokenStream) -> (r: Result<(), Error>)
        requires
            old(token_stream).wf(),
        ensures
            final(token_stream).wf(),
            *final(self) == *old(self),
            (unit_view(r), final(token_stream)@) == model::parse_module_body(old(token_stream)@),
    {
        match skip_while(token_stream, TokenMatcher::Newline) {
            Ok(_) => {},
            Err(e) => {
                return Err(e);
            },
        }
        match token_stream.peek() {
            Some(Ok(t)) => Err(
                Error::unexpected_token(
                    t,
                    String::from_str("top-level declarations are not implemented yet"),
                ),
            ),
            Some(Err(e)) => Err(Error::from_tokenizer(e)),
            None => Ok(()),
        }
    }

    /// Parses the source `bytes` into the module. Tokens and errors are
    /// labelled with `path`, or with `-` where there is none.
    ///
    /// The first error ends the parse: the module then holds what was
    /// defined before it.
    pub fn add_source(&mut self, bytes: Vec<u8>, path: Option<String>) -> (r: Result<(), Error>)
        requires
            old(self).wf(),
            bytes.len() < usize::MAX,
        ensures
            final(self).wf(),
            final(self).identifier() == old(self).identifier(),
            (unit_view(r), final(self)@) == model::add_source(old(self)@, bytes@, path_text(path)),
    {
        let mut t = TokenStream::new(bytes, path);
        match self.maybe_parse_use_block(&mut t) {
            Ok(_) => {},
            Err(e) => {
                return Err(e);
            },
        }
        match self.maybe_parse_const_block(&mut t) {
            Ok(_) => {},
            Err(e) => {
                return Err(e);
            },
        }
        match self.maybe_parse_var_block(&mut t) {
            Ok(_) => {},
            Err(e) => {
                return Err(e);
            },
        }
        let ghost expected = model::add_source(old(self)@, bytes@, path_text(path));
        while !t.is_empty()
            invariant
                self.wf(),
                t.wf(),
                self.identifier() == old(self).identifier(),
                expected == model::add_source(old(self)@, bytes@, path_text(path)),
                expected.1 == self@,
                expected.0 == if is_empty(t@) {
                    Ok::<(), ErrorModel>(())
                } else {
                    model::parse_module_body(t@).0
                },
            decreases measure(t@),
        {
            proof {
                model::lemma_module_body_reads_all(t@);
            }
            match self.parse_module_body(&mut t) {
                Ok(_) => {},
                Err(e) => {
                    return Err(e);
                },
            }
        }
        Ok(())
    }
}

/// What a step of a `use` block led to, from what it returned and left.
pub open spec fn step_view(
    r: Result<bool, Error>,
    module: Namespace,
    stream: StreamModel,
    parts: Seq<TokenModel>,
) -> ImportStep {
    match r {
        Ok(done) => if done {
            ImportStep::Done(Outcome { result: Ok(()), module, stream })
        } else {
            ImportStep::More { module, stream, parts }
        },
        Err(e) => ImportStep::Done(Outcome { result: Err(e@), module, stream }),
    }
}

} // verus!
