//! The kinds of nodes of the Functionless AST that the transform emits.
use vstd::prelude::*;

verus! {

/// The kind of a Functionless AST node. A node is emitted as an array whose
/// first element is the number of its kind.
#[derive(Clone, Copy, Debug, PartialEq, Eq, Structural)]
pub enum Node {
    Error,
    Argument,
    ArrayLiteralExpr,
    ArrowFunctionExpr,
    AwaitExpr,
    BigIntExpr,
    BinaryExpr,
    BooleanLiteralExpr,
    CallExpr,
    ClassExpr,
    ComputedPropertyNameExpr,
    ConditionExpr,
    DeleteExpr,
    ElementAccessExpr,
    FunctionExpr,
    Identifier,
    NewExpr,
    NullLiteralExpr,
    NumberLiteralExpr,
    ObjectLiteralExpr,
    ParenthesizedExpr,
    PostfixUnaryExpr,
    PrivateIdentifier,
    PromiseArrayExpr,
    PromiseExpr,
    PropAccessExpr,
    PropAssignExpr,
    ReferenceExpr,
    RegexExpr,
    SpreadAssignExpr,
    SpreadElementExpr,
    StringLiteralExpr,
    TaggedTemplateExpr,
    TemplateExpr,
    ThisExpr,
    TypeOfExpr,
    UnaryExpr,
    UndefinedLiteralExpr,
    VoidExpr,
    YieldExpr,
    BlockStmt,
    BreakStmt,
    CaseClause,
    CatchClause,
    ContinueStmt,
    DebuggerStmt,
    DefaultClause,
    DoStmt,
    EmptyStmt,
    ExprStmt,
    ForInStmt,
    ForOfStmt,
    ForStmt,
    IfStmt,
    LabelledStmt,
    ReturnStmt,
    SwitchStmt,
    ThrowStmt,
    TryStmt,
    VariableDecl,
    VariableDeclList,
    VariableStmt,
    WhileStmt,
    WithStmt,
    ArrayBinding,
    BindingElem,
    ClassDecl,
    ClassStaticBlockDecl,
    ConstructorDecl,
    FunctionDecl,
    GetAccessorDecl,
    MethodDecl,
    ObjectBinding,
    ParameterDecl,
    PropDecl,
    SetAccessorDecl,
    ImportKeyword,
    SuperKeyword,
    OmittedExpr,
    NoSubstitutionTemplateLiteral,
    TemplateHead,
    TemplateMiddle,
    TemplateSpan,
    TemplateTail,
}

/// The number by which a kind is emitted: its position in [`Node`].
pub open spec fn spec_node_kind_id(kind: Node) -> int {
    match kind {
        Node::Error => 0,
        Node::Argument => 1,
        Node::ArrayLiteralExpr => 2,
        Node::ArrowFunctionExpr => 3,
        Node::AwaitExpr => 4,
        Node::BigIntExpr => 5,
        Node::BinaryExpr => 6,
        Node::BooleanLiteralExpr => 7,
        Node::CallExpr => 8,
        Node::ClassExpr => 9,
        Node::ComputedPropertyNameExpr => 10,
        Node::ConditionExpr => 11,
        Node::DeleteExpr => 12,
        Node::ElementAccessExpr => 13,
        Node::FunctionExpr => 14,
        Node::Identifier => 15,
        Node::NewExpr => 16,
        Node::NullLiteralExpr => 17,
        Node::NumberLiteralExpr => 18,
        Node::ObjectLiteralExpr => 19,
        Node::ParenthesizedExpr => 20,
        Node::PostfixUnaryExpr => 21,
        Node::PrivateIdentifier => 22,
        Node::PromiseArrayExpr => 23,
        Node::PromiseExpr => 24,
        Node::PropAccessExpr => 25,
        Node::PropAssignExpr => 26,
        Node::ReferenceExpr => 27,
        Node::RegexExpr => 28,
        Node::SpreadAssignExpr => 29,
        Node::SpreadElementExpr => 30,
        Node::StringLiteralExpr => 31,
        Node::TaggedTemplateExpr => 32,
        Node::TemplateExpr => 33,
        Node::ThisExpr => 34,
        Node::TypeOfExpr => 35,
        Node::UnaryExpr => 36,
        Node::UndefinedLiteralExpr => 37,
        Node::VoidExpr => 38,
        Node::YieldExpr => 39,
        Node::BlockStmt => 40,
        Node::BreakStmt => 41,
        Node::CaseClause => 42,
        Node::CatchClause => 43,
        Node::ContinueStmt => 44,
        Node::DebuggerStmt => 45,
        Node::DefaultClause => 46,
        Node::DoStmt => 47,
        Node::EmptyStmt => 48,
        Node::ExprStmt => 49,
        Node::ForInStmt => 50,
        Node::ForOfStmt => 51,
        Node::ForStmt => 52,
        Node::IfStmt => 53,
        Node::LabelledStmt => 54,
        Node::ReturnStmt => 55,
        Node::SwitchStmt => 56,
        Node::ThrowStmt => 57,
        Node::TryStmt => 58,
        Node::VariableDecl => 59,
        Node::VariableDeclList => 60,
        Node::VariableStmt => 61,
        Node::WhileStmt => 62,
        Node::WithStmt => 63,
        Node::ArrayBinding => 64,
        Node::BindingElem => 65,
        Node::ClassDecl => 66,
        Node::ClassStaticBlockDecl => 67,
        Node::ConstructorDecl => 68,
        Node::FunctionDecl => 69,
        Node::GetAccessorDecl => 70,
        Node::MethodDecl => 71,
        Node::ObjectBinding => 72,
        Node::ParameterDecl => 73,
        Node::PropDecl => 74,
        Node::SetAccessorDecl => 75,
        Node::ImportKeyword => 76,
        Node::SuperKeyword => 77,
        Node::OmittedExpr => 78,
        Node::NoSubstitutionTemplateLiteral => 79,
        Node::TemplateHead => 80,
        Node::TemplateMiddle => 81,
        Node::TemplateSpan => 82,
        Node::TemplateTail => 83,
    }
}

/// The number by which a kind is emitted.
pub fn node_kind_id(kind: Node) -> (r: i32)
    ensures
        r == spec_node_kind_id(kind),
{
    match kind {
        Node::Error => 0,
        Node::Argument => 1,
        Node::ArrayLiteralExpr => 2,
        Node::ArrowFunctionExpr => 3,
        Node::AwaitExpr => 4,
        Node::BigIntExpr => 5,
        Node::BinaryExpr => 6,
        Node::BooleanLiteralExpr => 7,
        Node::CallExpr => 8,
        Node::ClassExpr => 9,
        Node::ComputedPropertyNameExpr => 10,
        Node::ConditionExpr => 11,
        Node::DeleteExpr => 12,
        Node::ElementAccessExpr => 13,
        Node::FunctionExpr => 14,
        Node::Identifier => 15,
        Node::NewExpr => 16,
        Node::NullLiteralExpr => 17,
        Node::NumberLiteralExpr => 18,
        Node::ObjectLiteralExpr => 19,
        Node::ParenthesizedExpr => 20,
        Node::PostfixUnaryExpr => 21,
        Node::PrivateIdentifier => 22,
        Node::PromiseArrayExpr => 23,
        Node::PromiseExpr => 24,
        Node::PropAccessExpr => 25,
        Node::PropAssignExpr => 26,
        Node::ReferenceExpr => 27,
        Node::RegexExpr => 28,
        Node::SpreadAssignExpr => 29,
        Node::SpreadElementExpr => 30,
        Node::StringLiteralExpr => 31,
        Node::TaggedTemplateExpr => 32,
        Node::TemplateExpr => 33,
        Node::ThisExpr => 34,
        Node::TypeOfExpr => 35,
        Node::UnaryExpr => 36,
        Node::UndefinedLiteralExpr => 37,
        Node::VoidExpr => 38,
        Node::YieldExpr => 39,
        Node::BlockStmt => 40,
        Node::BreakStmt => 41,
        Node::CaseClause => 42,
        Node::CatchClause => 43,
        Node::ContinueStmt => 44,
        Node::DebuggerStmt => 45,
        Node::DefaultClause => 46,
        Node::DoStmt => 47,
        Node::EmptyStmt => 48,
        Node::ExprStmt => 49,
        Node::ForInStmt => 50,
        Node::ForOfStmt => 51,
        Node::ForStmt => 52,
        Node::IfStmt => 53,
        Node::LabelledStmt => 54,
        Node::ReturnStmt => 55,
        Node::SwitchStmt => 56,
        Node::ThrowStmt => 57,
        Node::TryStmt => 58,
        Node::VariableDecl => 59,
        Node::VariableDeclList => 60,
        Node::VariableStmt => 61,
        Node::WhileStmt => 62,
        Node::WithStmt => 63,
        Node::ArrayBinding => 64,
        Node::BindingElem => 65,
        Node::ClassDecl => 66,
        Node::ClassStaticBlockDecl => 67,
        Node::ConstructorDecl => 68,
        Node::FunctionDecl => 69,
        Node::GetAccessorDecl => 70,
        Node::MethodDecl => 71,
        Node::ObjectBinding => 72,
        Node::ParameterDecl => 73,
        Node::PropDecl => 74,
        Node::SetAccessorDecl => 75,
        Node::ImportKeyword => 76,
        Node::SuperKeyword => 77,
        Node::OmittedExpr => 78,
        Node::NoSubstitutionTemplateLiteral => 79,
        Node::TemplateHead => 80,
        Node::TemplateMiddle => 81,
        Node::TemplateSpan => 82,
        Node::TemplateTail => 83,
    }
}

/// The name of a kind.
pub open spec fn spec_node_kind_name(kind: Node) -> Seq<char> {
    match kind {
        Node::Error => "Err"@,
        Node::Argument => "Argument"@,
        Node::ArrayLiteralExpr => "ArrayLiteralExpr"@,
        Node::ArrowFunctionExpr => "ArrowFunctionExpr"@,
        Node::AwaitExpr => "AwaitExpr"@,
        Node::BigIntExpr => "BigIntExpr"@,
        Node::BinaryExpr => "BinaryExpr"@,
        Node::BooleanLiteralExpr => "BooleanLiteralExpr"@,
        Node::CallExpr => "CallExpr"@,
        Node::ClassExpr => "ClassExpr"@,
        Node::ComputedPropertyNameExpr => "ComputedPropertyNameExpr"@,
        Node::ConditionExpr => "ConditionExpr"@,
        Node::DeleteExpr => "DeleteExpr"@,
        Node::ElementAccessExpr => "ElementAccessExpr"@,
        Node::FunctionExpr => "FunctionExpr"@,
        Node::Identifier => "Identifier"@,
        Node::NewExpr => "NewExpr"@,
        Node::NullLiteralExpr => "NullLiteralExpr"@,
        Node::NumberLiteralExpr => "NumberLiteralExpr"@,
        Node::ObjectLiteralExpr => "ObjectLiteralExpr"@,
        Node::ParenthesizedExpr => "ParenthesizedExpr"@,
        Node::PostfixUnaryExpr => "PostfixUnaryExpr"@,
        Node::PrivateIdentifier => "PrivateIdentifier"@,
        Node::PromiseArrayExpr => "PromiseArrayExpr"@,
        Node::PromiseExpr => "PromiseExpr"@,
        Node::PropAccessExpr => "PropAccessExpr"@,
        Node::PropAssignExpr => "PropAssignExpr"@,
        Node::ReferenceExpr => "ReferenceExpr"@,
        Node::RegexExpr => "RegexExpr"@,
        Node::SpreadAssignExpr => "SpreadAssignExpr"@,
        Node::SpreadElementExpr => "SpreadElementExpr"@,
        Node::StringLiteralExpr => "StringLiteralExpr"@,
        Node::TaggedTemplateExpr => "TaggedTemplateExpr"@,
        Node::TemplateExpr => "TemplateExpr"@,
        Node::ThisExpr => "ThisExpr"@,
        Node::TypeOfExpr => "TypeOfExpr"@,
        Node::UnaryExpr => "UnaryExpr"@,
        Node::UndefinedLiteralExpr => "UndefinedLiteralExpr"@,
        Node::VoidExpr => "VoidExpr"@,
        Node::YieldExpr => "YieldExpr"@,
        Node::BlockStmt => "BlockStmt"@,
        Node::BreakStmt => "BreakStmt"@,
        Node::CaseClause => "CaseClause"@,
        Node::CatchClause => "CatchClause"@,
        Node::ContinueStmt => "ContinueStmt"@,
        Node::DebuggerStmt => "DebuggerStmt"@,
        Node::DefaultClause => "DefaultClause"@,
        Node::DoStmt => "DoStmt"@,
        Node::EmptyStmt => "EmptyStmt"@,
        Node::ExprStmt => "ExprStmt"@,
        Node::ForInStmt => "ForInStmt"@,
        Node::ForOfStmt => "ForOfStmt"@,
        Node::ForStmt => "ForStmt"@,
        Node::IfStmt => "IfStmt"@,
        Node::LabelledStmt => "LabelledStmt"@,
        Node::ReturnStmt => "ReturnStmt"@,
        Node::SwitchStmt => "SwitchStmt"@,
        Node::ThrowStmt => "ThrowStmt"@,
        Node::TryStmt => "TryStmt"@,
        Node::VariableDecl => "VariableDecl"@,
        Node::VariableDeclList => "VariableDeclList"@,
        Node::VariableStmt => "VariableStmt"@,
        Node::WhileStmt => "WhileStmt"@,
        Node::WithStmt => "WithStmt"@,
        Node::ArrayBinding => "ArrayBinding"@,
        Node::BindingElem => "BindingElem"@,
        Node::ClassDecl => "ClassDecl"@,
        Node::ClassStaticBlockDecl => "ClassStaticBlockDecl"@,
        Node::ConstructorDecl => "ConstructorDecl"@,
        Node::FunctionDecl => "FunctionDecl"@,
        Node::GetAccessorDecl => "GetAccessorDecl"@,
        Node::MethodDecl => "MethodDecl"@,
        Node::ObjectBinding => "ObjectBinding"@,
        Node::ParameterDecl => "ParameterDecl"@,
        Node::PropDecl => "PropDecl"@,
        Node::SetAccessorDecl => "SetAccessorDecl"@,
        Node::ImportKeyword => "ImportKeyword"@,
        Node::SuperKeyword => "SuperKeyword"@,
        Node::OmittedExpr => "OmittedExpr"@,
        Node::NoSubstitutionTemplateLiteral => "NoSubstitutionTemplateLiteral"@,
        Node::TemplateHead => "TemplateHead"@,
        Node::TemplateMiddle => "TemplateMiddle"@,
        Node::TemplateSpan => "TemplateSpan"@,
        Node::TemplateTail => "TemplateTail"@,
    }
}

/// The name of a kind, as the Functionless runtime spells its constructor.
pub fn node_kind_name(kind: Node) -> (r: &'static str)
    ensures
        r@ == spec_node_kind_name(kind),
{
    match kind {
        Node::Error => "Err",
        Node::Argument => "Argument",
        Node::ArrayLiteralExpr => "ArrayLiteralExpr",
        Node::ArrowFunctionExpr => "ArrowFunctionExpr",
        Node::AwaitExpr => "AwaitExpr",
        Node::BigIntExpr => "BigIntExpr",
        Node::BinaryExpr => "BinaryExpr",
        Node::BooleanLiteralExpr => "BooleanLiteralExpr",
        Node::CallExpr => "CallExpr",
        Node::ClassExpr => "ClassExpr",
        Node::ComputedPropertyNameExpr => "ComputedPropertyNameExpr",
        Node::ConditionExpr => "ConditionExpr",
        Node::DeleteExpr => "DeleteExpr",
        Node::ElementAccessExpr => "ElementAccessExpr",
        Node::FunctionExpr => "FunctionExpr",
        Node::Identifier => "Identifier",
        Node::NewExpr => "NewExpr",
        Node::NullLiteralExpr => "NullLiteralExpr",
        Node::NumberLiteralExpr => "NumberLiteralExpr",
        Node::ObjectLiteralExpr => "ObjectLiteralExpr",
        Node::ParenthesizedExpr => "ParenthesizedExpr",
        Node::PostfixUnaryExpr => "PostfixUnaryExpr",
        Node::PrivateIdentifier => "PrivateIdentifier",
        Node::PromiseArrayExpr => "PromiseArrayExpr",
        Node::PromiseExpr => "PromiseExpr",
        Node::PropAccessExpr => "PropAccessExpr",
        Node::PropAssignExpr => "PropAssignExpr",
        Node::ReferenceExpr => "ReferenceExpr",
        Node::RegexExpr => "RegexExpr",
        Node::SpreadAssignExpr => "SpreadAssignExpr",
        Node::SpreadElementExpr => "SpreadElementExpr",
        Node::StringLiteralExpr => "StringLiteralExpr",
        Node::TaggedTemplateExpr => "TaggedTemplateExpr",
        Node::TemplateExpr => "TemplateExpr",
        Node::ThisExpr => "ThisExpr",
        Node::TypeOfExpr => "TypeOfExpr",
        Node::UnaryExpr => "UnaryExpr",
        Node::UndefinedLiteralExpr => "UndefinedLiteralExpr",
        Node::VoidExpr => "VoidExpr",
        Node::YieldExpr => "YieldExpr",
        Node::BlockStmt => "BlockStmt",
        Node::BreakStmt => "BreakStmt",
        Node::CaseClause => "CaseClause",
        Node::CatchClause => "CatchClause",
        Node::ContinueStmt => "ContinueStmt",
        Node::DebuggerStmt => "DebuggerStmt",
        Node::DefaultClause => "DefaultClause",
        Node::DoStmt => "DoStmt",
        Node::EmptyStmt => "EmptyStmt",
        Node::ExprStmt => "ExprStmt",
        Node::ForInStmt => "ForInStmt",
        Node::ForOfStmt => "ForOfStmt",
        Node::ForStmt => "ForStmt",
        Node::IfStmt => "IfStmt",
        Node::LabelledStmt => "LabelledStmt",
        Node::ReturnStmt => "ReturnStmt",
        Node::SwitchStmt => "SwitchStmt",
        Node::ThrowStmt => "ThrowStmt",
        Node::TryStmt => "TryStmt",
        Node::VariableDecl => "VariableDecl",
        Node::VariableDeclList => "VariableDeclList",
        Node::VariableStmt => "VariableStmt",
        Node::WhileStmt => "WhileStmt",
        Node::WithStmt => "WithStmt",
        Node::ArrayBinding => "ArrayBinding",
        Node::BindingElem => "BindingElem",
        Node::ClassDecl => "ClassDecl",
        Node::ClassStaticBlockDecl => "ClassStaticBlockDecl",
        Node::ConstructorDecl => "ConstructorDecl",
        Node::FunctionDecl => "FunctionDecl",
        Node::GetAccessorDecl => "GetAccessorDecl",
        Node::MethodDecl => "MethodDecl",
        Node::ObjectBinding => "ObjectBinding",
        Node::ParameterDecl => "ParameterDecl",
        Node::PropDecl => "PropDecl",
        Node::SetAccessorDecl => "SetAccessorDecl",
        Node::ImportKeyword => "ImportKeyword",
        Node::SuperKeyword => "SuperKeyword",
        Node::OmittedExpr => "OmittedExpr",
        Node::NoSubstitutionTemplateLiteral => "NoSubstitutionTemplateLiteral",
        Node::TemplateHead => "TemplateHead",
        Node::TemplateMiddle => "TemplateMiddle",
        Node::TemplateSpan => "TemplateSpan",
        Node::TemplateTail => "TemplateTail",
    }
}

} // verus!
