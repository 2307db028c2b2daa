use vstd::prelude::*;
use vstd::string::*;
use crate::error::{ResourceError, ResourceErrorProvider, ResponseHeader, opt_headers_view};
use crate::extractor::query::ApiQuery;
use crate::route::books::Book;
use crate::text::{format_i64, int_decimal};
use crate::traits::StateProvider;

verus! {

/// The query of the book routes.
#[derive(Debug)]
pub struct GetBookQuery {
    pub id: i64,
}

/// The book found.
#[derive(Debug)]
pub struct GetBookResponse {
    pub book: Book,
}

/// Why a book could not be given.
#[derive(Clone, Copy, Debug, PartialEq, Eq, Structural)]
pub enum GetBookErrorType {
    NotFound { id: i64 },
    IdTooBig { id: i64 },
}

/// What a book error tells at `Full` verbosity.
#[derive(Debug)]
pub struct GetBookErrorContext {
    pub reason: String,
}

impl ResourceErrorProvider for GetBookErrorType {
    type Context = GetBookErrorContext;

    open spec fn spec_headers(&self) -> Option<Seq<(Seq<char>, Seq<char>)>> {
        None
    }

    open spec fn spec_status_code(&self) -> u16 {
        match self {
            GetBookErrorType::NotFound { .. } => 404,
            GetBookErrorType::IdTooBig { .. } => 400,
        }
    }

    open spec fn spec_message(&self) -> Seq<char> {
        match self {
            GetBookErrorType::NotFound { .. } => "Book not found"@,
            GetBookErrorType::IdTooBig { .. } => "Id too big"@,
        }
    }

    open spec fn context_fits(&self, context: GetBookErrorContext) -> bool {
        match self {
            GetBookErrorType::NotFound { id } =>
                context.reason@ == "Book with id "@ + int_decimal(*id as int) + " not found"@,
            GetBookErrorType::IdTooBig { id } => context.reason@ == "Id "@ + int_decimal(*id as int) + " is too big"@,
        }
    }

    fn headers(&self) -> (headers: Option<Vec<ResponseHeader>>) {
        None
    }

    fn status_code(&self) -> (code: u16) {
        match self {
            GetBookErrorType::NotFound { .. } => 404,
            GetBookErrorType::IdTooBig { .. } => 400,
        }
    }

    fn message(&self) -> (message: &'static str) {
        match self {
            GetBookErrorType::NotFound { .. } => "Book not found",
            GetBookErrorType::IdTooBig { .. } => "Id too big",
        }
    }

    fn context(&self) -> (context: GetBookErrorContext) {
        match self {
            GetBookErrorType::NotFound { id } => {
                let mut reason = String::from_str("Book with id ");
                let digits = format_i64(*id);
                reason.append(digits.as_str());
                reason.append(" not found");
                GetBookErrorContext { reason }
            },
            GetBookErrorType::IdTooBig { id } => {
                let mut reason = String::from_str("Id ");
                let digits = format_i64(*id);
                reason.append(digits.as_str());
                reason.append(" is too big");
                GetBookErrorContext { reason }
            },
        }
    }
}

/// The book the routes answer with, under the id that was asked for.
pub open spec fn is_the_book(book: Book, id: i64) -> bool {
    &&& book.title@ == "The Catcher in the Rye"@
    &&& book.author@ == "J.D. Salinger"@
    &&& book.isbn@ == "978-0-316-76948-0"@
    &&& book.year == 1951
    &&& book.id == id
}

/// Answers with the book, under the id of the query.
pub fn get_book(query: ApiQuery<GetBookQuery>) -> (res: Result<GetBookResponse, ResourceError<GetBookErrorType, GetBookErrorContext>>)
    ensures
        res matches Ok(r) && is_the_book(r.book, query.0.id),
{
    let id = query.0.id;
    Ok(GetBookResponse {
        book: Book {
            title: String::from_str("The Catcher in the Rye"),
            author: String::from_str("J.D. Salinger"),
            isbn: String::from_str("978-0-316-76948-0"),
            year: 1951,
            id,
        },
    })
}

/// Answers that the book of the query's id was not found.
pub fn get_book_not_found<S: StateProvider>(
    query: ApiQuery<GetBookQuery>,
    state: &S,
) -> (res: Result<GetBookResponse, ResourceError<GetBookErrorType, GetBookErrorContext>>)
    ensures
        res matches Err(e) && e.verbosity == state.spec_error_verbosity()
            && e.error_type == (GetBookErrorType::NotFound { id: query.0.id })
            && (e.context is Some <==> state.spec_error_verbosity().is_full())
            && (e.context matches Some(c) ==> e.error_type.context_fits(c)),
{
    let id = query.0.id;
    Err(ResourceError::new(state.error_verbosity(), GetBookErrorType::NotFound { id }))
}

/// Answers that the query's id is too big.
pub fn get_book_id_too_big<S: StateProvider>(
    query: ApiQuery<GetBookQuery>,
    state: &S,
) -> (res: Result<GetBookResponse, ResourceError<GetBookErrorType, GetBookErrorContext>>)
    ensures
        res matches Err(e) && e.verbosity == state.spec_error_verbosity()
            && e.error_type == (GetBookErrorType::IdTooBig { id: query.0.id })
            && (e.context is Some <==> state.spec_error_verbosity().is_full())
            && (e.context matches Some(c) ==> e.error_type.context_fits(c)),
{
    let id = query.0.id;
    Err(ResourceError::new(state.error_verbosity(), GetBookErrorType::IdTooBig { id }))
}

} // verus!
