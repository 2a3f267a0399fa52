use crate::common::types::Status;
use vstd::prelude::*;
use vstd::string::StringExecFns;

verus! {

/// The class of a reply, which the transport turns into its own status
/// vocabulary.
#[derive(Clone, Copy, Debug, PartialEq, Eq, Structural)]
pub enum StatusCode {
    Succeeded,
    Created,
    BadRequest,
    Unauthorized,
    Forbidden,
    NotFound,
    Conflict,
    InternalServerError,
}

/// The body of a reply that carries a message and no payload.
#[derive(Debug)]
pub struct ErrorResponse {
    pub status: Status,
    pub message: String,
}

/// What the contracts see of a reply that carries a message.
pub struct ErrorResponseView {
    pub status: Status,
    pub message: Seq<char>,
}

impl View for ErrorResponse {
    type V = ErrorResponseView;

    open spec fn view(&self) -> ErrorResponseView {
        ErrorResponseView { status: self.status, message: self.message@ }
    }
}

impl DeepView for ErrorResponse {
    type V = ErrorResponseView;

    open spec fn deep_view(&self) -> ErrorResponseView {
        self@
    }
}

impl Clone for ErrorResponse {
    fn clone(&self) -> (r: Self)
        ensures
            r@ == self@,
    {
        ErrorResponse { status: self.status, message: self.message.clone() }
    }
}

/// Every way in which a request can be turned down.
#[derive(Debug)]
pub enum Failure {
    /// The request names no tenant.
    MissingTenantSelector,
    /// No tenant has the name that the request gives.
    UnknownTenant,
    /// The request carries no bearer token.
    MissingAuthorization,
    /// The token is malformed, wrongly signed or expired.
    InvalidToken,
    /// The token was issued for another tenant.
    TenantMismatch,
    /// The token's subject is not the text of an identity.
    InvalidPrincipalId,
    /// The tenant has no principal with the token's subject.
    PrincipalNotFound,
    /// The principal's rank is below the one required.
    InsufficientRank,
    /// The request carries no security key.
    MissingSecurityKey,
    /// The security key is not the configured one.
    InvalidSecurityKey,
    /// A tenant of that name exists already.
    DuplicateStoreName,
    /// The document store did not take the new tenant.
    StoreCreationFailed,
    /// The password and its confirmation differ.
    PasswordMismatch,
    /// The tenant has a principal with that email already.
    DuplicateEmail,
    /// The tenant has a principal with that login already.
    DuplicateUserId,
    /// The password could not be hashed.
    HashingFailed,
    /// The document store did not take the new principal.
    UserCreationFailed,
    /// The tenant has no principal with that login.
    UnknownUser,
    /// The stored credential could not be checked.
    PasswordCheckFailed,
    /// The password does not match the stored credential.
    WrongPassword,
    /// The stored principal has no identity.
    InvalidUserRecord,
    /// No token could be issued: the second at which it would expire
    /// cannot be counted.
    TokenIssueFailed,
    /// The tenant has a category of that name already.
    DuplicateCategoryName,
    /// The document store did not take the new category.
    CategoryCreationFailed,
    /// The tenant has no category of that name.
    CategoryNotFound(String),
    /// The document store did not carry out the deletion of the category.
    CategoryDeletionFailed,
    /// The category has a product of that name already.
    DuplicateProductName(String),
    /// The document store did not take the new product.
    ProductCreationFailed,
    /// The category has no product of that name.
    ProductNotFound(String),
    /// The stored product has no identity.
    InvalidProductReference,
    /// The document store did not carry out the removal of the product.
    ProductDeletionFailed,
    /// The document store did not carry out the update of the stock.
    StockUpdateFailed,
    /// The document store answered another question than the one asked.
    UnexpectedAnswer,
}

/// What the contracts see of a failure: the variant, and the name that it
/// carries as a sequence of characters.
pub enum FailureView {
    MissingTenantSelector,
    UnknownTenant,
    MissingAuthorization,
    InvalidToken,
    TenantMismatch,
    InvalidPrincipalId,
    PrincipalNotFound,
    InsufficientRank,
    MissingSecurityKey,
    InvalidSecurityKey,
    DuplicateStoreName,
    StoreCreationFailed,
    PasswordMismatch,
    DuplicateEmail,
    DuplicateUserId,
    HashingFailed,
    UserCreationFailed,
    UnknownUser,
    PasswordCheckFailed,
    WrongPassword,
    InvalidUserRecord,
    TokenIssueFailed,
    DuplicateCategoryName,
    CategoryCreationFailed,
    CategoryNotFound(Seq<char>),
    CategoryDeletionFailed,
    DuplicateProductName(Seq<char>),
    ProductCreationFailed,
    ProductNotFound(Seq<char>),
    InvalidProductReference,
    ProductDeletionFailed,
    StockUpdateFailed,
    UnexpectedAnswer,
}

impl View for Failure {
    type V = FailureView;

    open spec fn view(&self) -> FailureView {
        match self {
            Failure::MissingTenantSelector => FailureView::MissingTenantSelector,
            Failure::UnknownTenant => FailureView::UnknownTenant,
            Failure::MissingAuthorization => FailureView::MissingAuthorization,
            Failure::InvalidToken => FailureView::InvalidToken,
            Failure::TenantMismatch => FailureView::TenantMismatch,
            Failure::InvalidPrincipalId => FailureView::InvalidPrincipalId,
            Failure::PrincipalNotFound => FailureView::PrincipalNotFound,
            Failure::InsufficientRank => FailureView::InsufficientRank,
            Failure::MissingSecurityKey => FailureView::MissingSecurityKey,
            Failure::InvalidSecurityKey => FailureView::InvalidSecurityKey,
            Failure::DuplicateStoreName => FailureView::DuplicateStoreName,
            Failure::StoreCreationFailed => FailureView::StoreCreationFailed,
            Failure::PasswordMismatch => FailureView::PasswordMismatch,
            Failure::DuplicateEmail => FailureView::DuplicateEmail,
            Failure::DuplicateUserId => FailureView::DuplicateUserId,
            Failure::HashingFailed => FailureView::HashingFailed,
            Failure::UserCreationFailed => FailureView::UserCreationFailed,
            Failure::UnknownUser => FailureView::UnknownUser,
            Failure::PasswordCheckFailed => FailureView::PasswordCheckFailed,
            Failure::WrongPassword => FailureView::WrongPassword,
            Failure::InvalidUserRecord => FailureView::InvalidUserRecord,
            Failure::TokenIssueFailed => FailureView::TokenIssueFailed,
            Failure::DuplicateCategoryName => FailureView::DuplicateCategoryName,
            Failure::CategoryCreationFailed => FailureView::CategoryCreationFailed,
            Failure::CategoryNotFound(name) => FailureView::CategoryNotFound(name@),
            Failure::CategoryDeletionFailed => FailureView::CategoryDeletionFailed,
            Failure::DuplicateProductName(name) => FailureView::DuplicateProductName(name@),
            Failure::ProductCreationFailed => FailureView::ProductCreationFailed,
            Failure::ProductNotFound(name) => FailureView::ProductNotFound(name@),
            Failure::InvalidProductReference => FailureView::InvalidProductReference,
            Failure::ProductDeletionFailed => FailureView::ProductDeletionFailed,
            Failure::StockUpdateFailed => FailureView::StockUpdateFailed,
            Failure::UnexpectedAnswer => FailureView::UnexpectedAnswer,
        }
    }
}

impl FailureView {
    /// The class under which the failure is reported.
    pub open spec fn status_code(self) -> StatusCode {
        match self {
            FailureView::MissingTenantSelector
            | FailureView::MissingAuthorization
            | FailureView::InvalidPrincipalId
            | FailureView::MissingSecurityKey
            | FailureView::PasswordMismatch
            | FailureView::InvalidProductReference => StatusCode::BadRequest,
            FailureView::InvalidToken
            | FailureView::TenantMismatch
            | FailureView::PrincipalNotFound
            | FailureView::InvalidSecurityKey
            | FailureView::UnknownUser
            | FailureView::WrongPassword => StatusCode::Unauthorized,
            FailureView::InsufficientRank => StatusCode::Forbidden,
            FailureView::UnknownTenant
            | FailureView::CategoryNotFound(_)
            | FailureView::ProductNotFound(_) => StatusCode::NotFound,
            FailureView::DuplicateStoreName
            | FailureView::DuplicateEmail
            | FailureView::DuplicateUserId
            | FailureView::DuplicateCategoryName
            | FailureView::DuplicateProductName(_) => StatusCode::Conflict,
            FailureView::StoreCreationFailed
            | FailureView::HashingFailed
            | FailureView::UserCreationFailed
            | FailureView::PasswordCheckFailed
            | FailureView::InvalidUserRecord
            | FailureView::TokenIssueFailed
            | FailureView::CategoryCreationFailed
            | FailureView::CategoryDeletionFailed
            | FailureView::ProductCreationFailed
            | FailureView::ProductDeletionFailed
            | FailureView::StockUpdateFailed
            | FailureView::UnexpectedAnswer => StatusCode::InternalServerError,
        }
    }

    /// Whether the caller can correct the request (`Failure`) or the platform
    /// broke (`Error`).
    pub open spec fn status(self) -> Status {
        match self {
            FailureView::StoreCreationFailed
            | FailureView::HashingFailed
            | FailureView::UserCreationFailed
            | FailureView::PasswordCheckFailed
            | FailureView::InvalidUserRecord
            | FailureView::TokenIssueFailed
            | FailureView::CategoryCreationFailed
            | FailureView::CategoryDeletionFailed
            | FailureView::ProductCreationFailed
            | FailureView::InvalidProductReference
            | FailureView::ProductDeletionFailed
            | FailureView::StockUpdateFailed
            | FailureView::UnexpectedAnswer => Status::Error,
            _ => Status::Failure,
        }
    }

    /// The message that tells the caller what went wrong.
    pub open spec fn message(self) -> Seq<char> {
        match self {
            FailureView::MissingTenantSelector => "스토어 이름을 제공해주세요."@,
            FailureView::UnknownTenant => "존재하지 않는 스토어입니다."@,
            FailureView::MissingAuthorization => "Authorization 헤더가 제공되지 않았습니다."@,
            FailureView::InvalidToken => "유효하지 않은 토큰입니다."@,
            FailureView::TenantMismatch => "잘못된 스토어 접근입니다."@,
            FailureView::InvalidPrincipalId => "유효하지 않은 유저 ID 형식입니다."@,
            FailureView::PrincipalNotFound => "유저를 찾을 수 없습니다."@,
            FailureView::InsufficientRank => "권한이 부족합니다."@,
            FailureView::MissingSecurityKey => "보안 키가 제공되지 않았습니다."@,
            FailureView::InvalidSecurityKey => "유효하지 않은 보안 키입니다."@,
            FailureView::DuplicateStoreName => "이미 사용중인 스토어 이름입니다."@,
            FailureView::StoreCreationFailed => "스토어 생성을 실패하였습니다."@,
            FailureView::PasswordMismatch => "비밀번호와 비밀번호 확인이 일치하지 않습니다."@,
            FailureView::DuplicateEmail => "이미 가입된 이메일입니다."@,
            FailureView::DuplicateUserId => "이미 사용중인 유저 아이디입니다."@,
            FailureView::HashingFailed => "비밀번호 해시화에 실패했습니다."@,
            FailureView::UserCreationFailed => "유저 생성에 실패하였습니다."@,
            FailureView::UnknownUser => "존재하지 않는 사용자입니다."@,
            FailureView::PasswordCheckFailed => "비밀번호 검증에 실패하였습니다."@,
            FailureView::WrongPassword => "잘못된 비밀번호입니다."@,
            FailureView::InvalidUserRecord => "유저 정보가 유효하지 않습니다."@,
            FailureView::TokenIssueFailed => "토큰 생성에 실패하였습니다."@,
            FailureView::DuplicateCategoryName => "이미 존재하는 카테고리 이름입니다."@,
            FailureView::CategoryCreationFailed => "카테고리 생성에 실패하였습니다."@,
            FailureView::CategoryNotFound(name) => "카테고리 '"@ + name + "'를 찾을 수 없습니다."@,
            FailureView::CategoryDeletionFailed => "카테고리 삭제에 실패하였습니다."@,
            FailureView::DuplicateProductName(name) => "이미 '"@ + name + "' 제품이 존재합니다."@,
            FailureView::ProductCreationFailed => "제품 추가에 실패하였습니다."@,
            FailureView::ProductNotFound(name) => "제품 '"@ + name + "'를 찾을 수 없습니다."@,
            FailureView::InvalidProductReference => "유효하지 않은 제품 ID입니다."@,
            FailureView::ProductDeletionFailed => "제품 삭제에 실패하였습니다."@,
            FailureView::StockUpdateFailed => "재고 업데이트에 실패하였습니다."@,
            FailureView::UnexpectedAnswer => "데이터 저장소의 응답이 올바르지 않습니다."@,
        }
    }

    /// The body of the reply that reports the failure.
    pub open spec fn response(self) -> ErrorResponseView {
        ErrorResponseView { status: self.status(), message: self.message() }
    }
}

/// What the handling of a request ends in: the class of the reply and its
/// body, or the reason for which the request was turned down.
pub type Reply<T> = Result<(StatusCode, T), Failure>;

/// What a fallible step gives, seen through the views of its two sides.
pub open spec fn outcome<T: DeepView>(r: Result<T, Failure>) -> Result<T::V, FailureView> {
    match r {
        Ok(value) => Ok(value.deep_view()),
        Err(failure) => Err(failure@),
    }
}

/// The text made of `before`, `name` and `after`, in that order.
pub fn framed(before: &str, name: &str, after: &str) -> (r: String)
    ensures
        r@ == before@ + name@ + after@,
{
    let mut text = before.to_owned();
    text.append(name);
    text.append(after);
    text
}

impl Failure {
    /// The class under which the failure is reported.
    pub fn status_code(&self) -> (r: StatusCode)
        ensures
            r == self@.status_code(),
    {
        match self {
            Failure::MissingTenantSelector
            | Failure::MissingAuthorization
            | Failure::InvalidPrincipalId
            | Failure::MissingSecurityKey
            | Failure::PasswordMismatch
            | Failure::InvalidProductReference => StatusCode::BadRequest,
            Failure::InvalidToken
            | Failure::TenantMismatch
            | Failure::PrincipalNotFound
            | Failure::InvalidSecurityKey
            | Failure::UnknownUser
            | Failure::WrongPassword => StatusCode::Unauthorized,
            Failure::InsufficientRank => StatusCode::Forbidden,
            Failure::UnknownTenant
            | Failure::CategoryNotFound(_)
            | Failure::ProductNotFound(_) => StatusCode::NotFound,
            Failure::DuplicateStoreName
            | Failure::DuplicateEmail
            | Failure::DuplicateUserId
            | Failure::DuplicateCategoryName
            | Failure::DuplicateProductName(_) => StatusCode::Conflict,
            Failure::StoreCreationFailed
            | Failure::HashingFailed
            | Failure::UserCreationFailed
            | Failure::PasswordCheckFailed
            | Failure::InvalidUserRecord
            | Failure::TokenIssueFailed
            | Failure::CategoryCreationFailed
            | Failure::CategoryDeletionFailed
            | Failure::ProductCreationFailed
            | Failure::ProductDeletionFailed
            | Failure::StockUpdateFailed
            | Failure::UnexpectedAnswer => StatusCode::InternalServerError,
        }
    }

    /// Whether the caller can correct the request or the platform broke.
    pub fn status(&self) -> (r: Status)
        ensures
            r == self@.status(),
    {
        match self {
            Failure::StoreCreationFailed
            | Failure::HashingFailed
            | Failure::UserCreationFailed
            | Failure::PasswordCheckFailed
            | Failure::InvalidUserRecord
            | Failure::TokenIssueFailed
            | Failure::CategoryCreationFailed
            | Failure::CategoryDeletionFailed
            | Failure::ProductCreationFailed
            | Failure::InvalidProductReference
            | Failure::ProductDeletionFailed
            | Failure::StockUpdateFailed
            | Failure::UnexpectedAnswer => Status::Error,
            _ => Status::Failure,
        }
    }

    /// The message that tells the caller what went wrong.
    pub fn message(&self) -> (r: String)
        ensures
            r@ == self@.message(),
    {
        match self {
            Failure::MissingTenantSelector => "스토어 이름을 제공해주세요.".to_owned(),
            Failure::UnknownTenant => "존재하지 않는 스토어입니다.".to_owned(),
            Failure::MissingAuthorization => "Authorization 헤더가 제공되지 않았습니다.".to_owned(),
            Failure::InvalidToken => "유효하지 않은 토큰입니다.".to_owned(),
            Failure::TenantMismatch => "잘못된 스토어 접근입니다.".to_owned(),
            Failure::InvalidPrincipalId => "유효하지 않은 유저 ID 형식입니다.".to_owned(),
            Failure::PrincipalNotFound => "유저를 찾을 수 없습니다.".to_owned(),
            Failure::InsufficientRank => "권한이 부족합니다.".to_owned(),
            Failure::MissingSecurityKey => "보안 키가 제공되지 않았습니다.".to_owned(),
            Failure::InvalidSecurityKey => "유효하지 않은 보안 키입니다.".to_owned(),
            Failure::DuplicateStoreName => "이미 사용중인 스토어 이름입니다.".to_owned(),
            Failure::StoreCreationFailed => "스토어 생성을 실패하였습니다.".to_owned(),
            Failure::PasswordMismatch => "비밀번호와 비밀번호 확인이 일치하지 않습니다.".to_owned(),
            Failure::DuplicateEmail => "이미 가입된 이메일입니다.".to_owned(),
            Failure::DuplicateUserId => "이미 사용중인 유저 아이디입니다.".to_owned(),
            Failure::HashingFailed => "비밀번호 해시화에 실패했습니다.".to_owned(),
            Failure::UserCreationFailed => "유저 생성에 실패하였습니다.".to_owned(),
            Failure::UnknownUser => "존재하지 않는 사용자입니다.".to_owned(),
            Failure::PasswordCheckFailed => "비밀번호 검증에 실패하였습니다.".to_owned(),
            Failure::WrongPassword => "잘못된 비밀번호입니다.".to_owned(),
            Failure::InvalidUserRecord => "유저 정보가 유효하지 않습니다.".to_owned(),
            Failure::TokenIssueFailed => "토큰 생성에 실패하였습니다.".to_owned(),
            Failure::DuplicateCategoryName => "이미 존재하는 카테고리 이름입니다.".to_owned(),
            Failure::CategoryCreationFailed => "카테고리 생성에 실패하였습니다.".to_owned(),
            Failure::CategoryNotFound(name) => framed("카테고리 '", name.as_str(), "'를 찾을 수 없습니다."),
            Failure::CategoryDeletionFailed => "카테고리 삭제에 실패하였습니다.".to_owned(),
            Failure::DuplicateProductName(name) => framed("이미 '", name.as_str(), "' 제품이 존재합니다."),
            Failure::ProductCreationFailed => "제품 추가에 실패하였습니다.".to_owned(),
            Failure::ProductNotFound(name) => framed("제품 '", name.as_str(), "'를 찾을 수 없습니다."),
            Failure::InvalidProductReference => "유효하지 않은 제품 ID입니다.".to_owned(),
            Failure::ProductDeletionFailed => "제품 삭제에 실패하였습니다.".to_owned(),
            Failure::StockUpdateFailed => "재고 업데이트에 실패하였습니다.".to_owned(),
            Failure::UnexpectedAnswer => "데이터 저장소의 응답이 올바르지 않습니다.".to_owned(),
        }
    }

    /// The class and the body of the reply that reports the failure.
    pub fn response(&self) -> (r: (StatusCode, ErrorResponse))
        ensures
            r.0 == self@.status_code(),
            r.1@ == self@.response(),
    {
        (self.status_code(), ErrorResponse { status: self.status(), message: self.message() })
    }
}

} // verus!
