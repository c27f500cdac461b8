use vstd::prelude::*;

verus! {

/// The operation of an instruction, one per instruction kind; its byte in the
/// encoded form is its position in this list, counting from zero.
#[derive(Debug, Clone, Copy, PartialEq, Eq, Structural)]
pub enum OpCode {
    ConstInt,
    ConstBool,
    ConstStr,
    Load,
    Store,
    Add,
    Sub,
    Mul,
    Div,
    Eq,
    Ne,
    Lt,
    Le,
    Gt,
    Ge,
    StrEq,
    StrNe,
    And,
    Or,
    Not,
    Neg,
    Jump,
    JumpIfFalse,
    PrintLn,
    ReadInt,
    ReadBool,
    ReadStr,
    Call,
    Ret,
    RetVal,
    AllocArray,
    LoadIndex,
    StoreIndex,
    ReadFile,
    WriteFile,
    ArgCount,
    Arg,
    StrLen,
    StrConcat,
    StrSubstr,
    StrReplace,
    VecNew,
    VecLen,
    VecGet,
    VecSet,
    VecPush,
    VecRemove,
    VecLast,
    VecPop,
    StackNew,
    StackLen,
    StackPush,
    StackTop,
    StackPop,
    MapNew,
    MapLen,
    MapSet,
    MapGet,
    MapHas,
    MapRemove,
    SetNew,
    SetLen,
    SetAdd,
    SetHas,
    SetRemove,
    OptSomeInt,
    OptSomeBool,
    OptSomeStr,
    OptNoneInt,
    OptNoneBool,
    OptNoneStr,
    OptIsSomeInt,
    OptIsSomeBool,
    OptIsSomeStr,
    OptUnwrapInt,
    OptUnwrapBool,
    OptUnwrapStr,
    OptUnwrapOrInt,
    OptUnwrapOrBool,
    OptUnwrapOrStr,
    ResOkInt,
    ResOkBool,
    ResOkStr,
    ResErrInt,
    ResErrBool,
    ResErrStr,
    ResIsOkInt,
    ResIsOkBool,
    ResIsOkStr,
    ResUnwrapInt,
    ResUnwrapBool,
    ResUnwrapStr,
    ResUnwrapOrInt,
    ResUnwrapOrBool,
    ResUnwrapOrStr,
    ResUnwrapErrInt,
    ResUnwrapErrBool,
    ResUnwrapErrStr,
    StrClear,
    VecClear,
    StackClear,
    MapClear,
    SetClear,
    EnvGet,
    EnvHas,
    Cwd,
    PathJoin,
    FsExists,
    FsListDir,
    NowTimestamp,
    SleepMs,
    LogStr,
    LogInt,
    LogBool,
    BcNew,
    BcMain,
    BcEmitPrintStr,
    BcEmitHalt,
    BcWrite,
    BcEmitConstInt,
    BcEmitStore0,
    BcEmitLoad0,
    BcEmitPrintLn,
    BcEmitConstBool,
    BcLabel,
    BcJump,
    BcJumpIfFalse,
    BcEmitConstStr,
    BcEmitLoad,
    BcEmitStore,
    BcEmitAdd,
    BcEmitSub,
    BcEmitMul,
    BcEmitDiv,
    BcEmitEq,
    BcEmitNe,
    BcEmitLt,
    BcEmitLe,
    BcEmitGt,
    BcEmitGe,
    BcEmitAnd,
    BcEmitOr,
    BcEmitNot,
    BcEmitNeg,
    BcEmitStrLen,
    BcEmitStrConcat,
    BcEmitStrSubstr,
    BcEmitStrReplace,
    BcEmitVecNew,
    BcEmitVecLen,
    BcEmitVecGet,
    BcEmitVecSet,
    BcEmitVecPush,
    BcEmitVecRemove,
    BcEmitVecLast,
    BcEmitVecPop,
    BcEmitMapNew,
    BcEmitMapLen,
    BcEmitMapSet,
    BcEmitMapGet,
    BcEmitMapHas,
    BcEmitMapRemove,
    BcEmitReadFile,
    BcEmitWriteFile,
    BcEmitArgCount,
    BcEmitArg,
    BcEmitStrClear,
    BcEmitVecClear,
    BcEmitMapClear,
    BcFuncBegin,
    BcFuncEnd,
    BcEmitCall,
    BcEmitRet,
    BcEmitRetVal,
    BcEmitEnvGet,
    BcEmitEnvHas,
    BcEmitCwd,
    BcEmitPathJoin,
    BcEmitFsExists,
    BcEmitFsListDir,
    BcEmitNowTimestamp,
    BcEmitConstIntOp,
    BcEmitConstBoolOp,
    BcEmitConstStrOp,
    BcEmitLoadOp,
    BcEmitStoreOp,
    BcEmitCallOp,
    BcNewOp,
    BcWriteOp,
    BcLabelOp,
    BcJumpOp,
    BcJumpIfFalseOp,
    BcFuncBeginOp,
    BcMainOp,
    BcFuncEndOp,
    BcEmitHaltOp,
    BcEmitRetOp,
    BcEmitRetValOp,
    BcEmitPrintLnOp,
    BcEmitWriteFileOp,
    BcEmitAddOp,
    BcEmitSubOp,
    BcEmitMulOp,
    BcEmitDivOp,
    BcEmitEqOp,
    BcEmitNeOp,
    BcEmitLtOp,
    BcEmitLeOp,
    BcEmitGtOp,
    BcEmitGeOp,
    BcEmitAndOp,
    BcEmitOrOp,
    BcEmitNotOp,
    BcEmitNegOp,
    BcEmitStrLenOp,
    BcEmitStrConcatOp,
    BcEmitStrSubstrOp,
    BcEmitStrReplaceOp,
    BcEmitVecNewOp,
    BcEmitVecLenOp,
    BcEmitVecGetOp,
    BcEmitVecSetOp,
    BcEmitVecPushOp,
    BcEmitVecRemoveOp,
    BcEmitVecLastOp,
    BcEmitVecPopOp,
    BcEmitVecClearOp,
    BcEmitMapNewOp,
    BcEmitMapLenOp,
    BcEmitMapSetOp,
    BcEmitMapGetOp,
    BcEmitMapHasOp,
    BcEmitMapRemoveOp,
    BcEmitMapClearOp,
    BcEmitReadFileOp,
    BcEmitArgCountOp,
    BcEmitArgOp,
    BcEmitEnvGetOp,
    BcEmitEnvHasOp,
    BcEmitCwdOp,
    BcEmitPathJoinOp,
    BcEmitFsExistsOp,
    BcEmitFsListDirOp,
    BcEmitNowTimestampOp,
    MetaBcNew,
    MetaBcMain,
    MetaBcWrite,
    MetaBcFuncBegin,
    MetaBcFuncEnd,
    MetaBcEmitHalt,
    MetaBcLabel,
    MetaBcJump,
    MetaBcJumpIfFalse,
    Halt,
}

impl OpCode {
    /// The byte that stands for this operation in encoded bytecode.
    pub open spec fn spec_code(self) -> u8 {
        match self {
            OpCode::ConstInt => 0u8,
            OpCode::ConstBool => 1u8,
            OpCode::ConstStr => 2u8,
            OpCode::Load => 3u8,
            OpCode::Store => 4u8,
            OpCode::Add => 5u8,
            OpCode::Sub => 6u8,
            OpCode::Mul => 7u8,
            OpCode::Div => 8u8,
            OpCode::Eq => 9u8,
            OpCode::Ne => 10u8,
            OpCode::Lt => 11u8,
            OpCode::Le => 12u8,
            OpCode::Gt => 13u8,
            OpCode::Ge => 14u8,
            OpCode::StrEq => 15u8,
            OpCode::StrNe => 16u8,
            OpCode::And => 17u8,
            OpCode::Or => 18u8,
            OpCode::Not => 19u8,
            OpCode::Neg => 20u8,
            OpCode::Jump => 21u8,
            OpCode::JumpIfFalse => 22u8,
            OpCode::PrintLn => 23u8,
            OpCode::ReadInt => 24u8,
            OpCode::ReadBool => 25u8,
            OpCode::ReadStr => 26u8,
            OpCode::Call => 27u8,
            OpCode::Ret => 28u8,
            OpCode::RetVal => 29u8,
            OpCode::AllocArray => 30u8,
            OpCode::LoadIndex => 31u8,
            OpCode::StoreIndex => 32u8,
            OpCode::ReadFile => 33u8,
            OpCode::WriteFile => 34u8,
            OpCode::ArgCount => 35u8,
            OpCode::Arg => 36u8,
            OpCode::StrLen => 37u8,
            OpCode::StrConcat => 38u8,
            OpCode::StrSubstr => 39u8,
            OpCode::StrReplace => 40u8,
            OpCode::VecNew => 41u8,
            OpCode::VecLen => 42u8,
            OpCode::VecGet => 43u8,
            OpCode::VecSet => 44u8,
            OpCode::VecPush => 45u8,
            OpCode::VecRemove => 46u8,
            OpCode::VecLast => 47u8,
            OpCode::VecPop => 48u8,
            OpCode::StackNew => 49u8,
            OpCode::StackLen => 50u8,
            OpCode::StackPush => 51u8,
            OpCode::StackTop => 52u8,
            OpCode::StackPop => 53u8,
            OpCode::MapNew => 54u8,
            OpCode::MapLen => 55u8,
            OpCode::MapSet => 56u8,
            OpCode::MapGet => 57u8,
            OpCode::MapHas => 58u8,
            OpCode::MapRemove => 59u8,
            OpCode::SetNew => 60u8,
            OpCode::SetLen => 61u8,
            OpCode::SetAdd => 62u8,
            OpCode::SetHas => 63u8,
            OpCode::SetRemove => 64u8,
            OpCode::OptSomeInt => 65u8,
            OpCode::OptSomeBool => 66u8,
            OpCode::OptSomeStr => 67u8,
            OpCode::OptNoneInt => 68u8,
            OpCode::OptNoneBool => 69u8,
            OpCode::OptNoneStr => 70u8,
            OpCode::OptIsSomeInt => 71u8,
            OpCode::OptIsSomeBool => 72u8,
            OpCode::OptIsSomeStr => 73u8,
            OpCode::OptUnwrapInt => 74u8,
            OpCode::OptUnwrapBool => 75u8,
            OpCode::OptUnwrapStr => 76u8,
            OpCode::OptUnwrapOrInt => 77u8,
            OpCode::OptUnwrapOrBool => 78u8,
            OpCode::OptUnwrapOrStr => 79u8,
            OpCode::ResOkInt => 80u8,
            OpCode::ResOkBool => 81u8,
            OpCode::ResOkStr => 82u8,
            OpCode::ResErrInt => 83u8,
            OpCode::ResErrBool => 84u8,
            OpCode::ResErrStr => 85u8,
            OpCode::ResIsOkInt => 86u8,
            OpCode::ResIsOkBool => 87u8,
            OpCode::ResIsOkStr => 88u8,
            OpCode::ResUnwrapInt => 89u8,
            OpCode::ResUnwrapBool => 90u8,
            OpCode::ResUnwrapStr => 91u8,
            OpCode::ResUnwrapOrInt => 92u8,
            OpCode::ResUnwrapOrBool => 93u8,
            OpCode::ResUnwrapOrStr => 94u8,
            OpCode::ResUnwrapErrInt => 95u8,
            OpCode::ResUnwrapErrBool => 96u8,
            OpCode::ResUnwrapErrStr => 97u8,
            OpCode::StrClear => 98u8,
            OpCode::VecClear => 99u8,
            OpCode::StackClear => 100u8,
            OpCode::MapClear => 101u8,
            OpCode::SetClear => 102u8,
            OpCode::EnvGet => 103u8,
            OpCode::EnvHas => 104u8,
            OpCode::Cwd => 105u8,
            OpCode::PathJoin => 106u8,
            OpCode::FsExists => 107u8,
            OpCode::FsListDir => 108u8,
            OpCode::NowTimestamp => 109u8,
            OpCode::SleepMs => 110u8,
            OpCode::LogStr => 111u8,
            OpCode::LogInt => 112u8,
            OpCode::LogBool => 113u8,
            OpCode::BcNew => 114u8,
            OpCode::BcMain => 115u8,
            OpCode::BcEmitPrintStr => 116u8,
            OpCode::BcEmitHalt => 117u8,
            OpCode::BcWrite => 118u8,
            OpCode::BcEmitConstInt => 119u8,
            OpCode::BcEmitStore0 => 120u8,
            OpCode::BcEmitLoad0 => 121u8,
            OpCode::BcEmitPrintLn => 122u8,
            OpCode::BcEmitConstBool => 123u8,
            OpCode::BcLabel => 124u8,
            OpCode::BcJump => 125u8,
            OpCode::BcJumpIfFalse => 126u8,
            OpCode::BcEmitConstStr => 127u8,
            OpCode::BcEmitLoad => 128u8,
            OpCode::BcEmitStore => 129u8,
            OpCode::BcEmitAdd => 130u8,
            OpCode::BcEmitSub => 131u8,
            OpCode::BcEmitMul => 132u8,
            OpCode::BcEmitDiv => 133u8,
            OpCode::BcEmitEq => 134u8,
            OpCode::BcEmitNe => 135u8,
            OpCode::BcEmitLt => 136u8,
            OpCode::BcEmitLe => 137u8,
            OpCode::BcEmitGt => 138u8,
            OpCode::BcEmitGe => 139u8,
            OpCode::BcEmitAnd => 140u8,
            OpCode::BcEmitOr => 141u8,
            OpCode::BcEmitNot => 142u8,
            OpCode::BcEmitNeg => 143u8,
            OpCode::BcEmitStrLen => 144u8,
            OpCode::BcEmitStrConcat => 145u8,
            OpCode::BcEmitStrSubstr => 146u8,
            OpCode::BcEmitStrReplace => 147u8,
            OpCode::BcEmitVecNew => 148u8,
            OpCode::BcEmitVecLen => 149u8,
            OpCode::BcEmitVecGet => 150u8,
            OpCode::BcEmitVecSet => 151u8,
            OpCode::BcEmitVecPush => 152u8,
            OpCode::BcEmitVecRemove => 153u8,
            OpCode::BcEmitVecLast => 154u8,
            OpCode::BcEmitVecPop => 155u8,
            OpCode::BcEmitMapNew => 156u8,
            OpCode::BcEmitMapLen => 157u8,
            OpCode::BcEmitMapSet => 158u8,
            OpCode::BcEmitMapGet => 159u8,
            OpCode::BcEmitMapHas => 160u8,
            OpCode::BcEmitMapRemove => 161u8,
            OpCode::BcEmitReadFile => 162u8,
            OpCode::BcEmitWriteFile => 163u8,
            OpCode::BcEmitArgCount => 164u8,
            OpCode::BcEmitArg => 165u8,
            OpCode::BcEmitStrClear => 166u8,
            OpCode::BcEmitVecClear => 167u8,
            OpCode::BcEmitMapClear => 168u8,
            OpCode::BcFuncBegin => 169u8,
            OpCode::BcFuncEnd => 170u8,
            OpCode::BcEmitCall => 171u8,
            OpCode::BcEmitRet => 172u8,
            OpCode::BcEmitRetVal => 173u8,
            OpCode::BcEmitEnvGet => 174u8,
            OpCode::BcEmitEnvHas => 175u8,
            OpCode::BcEmitCwd => 176u8,
            OpCode::BcEmitPathJoin => 177u8,
            OpCode::BcEmitFsExists => 178u8,
            OpCode::BcEmitFsListDir => 179u8,
            OpCode::BcEmitNowTimestamp => 180u8,
            OpCode::BcEmitConstIntOp => 181u8,
            OpCode::BcEmitConstBoolOp => 182u8,
            OpCode::BcEmitConstStrOp => 183u8,
            OpCode::BcEmitLoadOp => 184u8,
            OpCode::BcEmitStoreOp => 185u8,
            OpCode::BcEmitCallOp => 186u8,
            OpCode::BcNewOp => 187u8,
            OpCode::BcWriteOp => 188u8,
            OpCode::BcLabelOp => 189u8,
            OpCode::BcJumpOp => 190u8,
            OpCode::BcJumpIfFalseOp => 191u8,
            OpCode::BcFuncBeginOp => 192u8,
            OpCode::BcMainOp => 193u8,
            OpCode::BcFuncEndOp => 194u8,
            OpCode::BcEmitHaltOp => 195u8,
            OpCode::BcEmitRetOp => 196u8,
            OpCode::BcEmitRetValOp => 197u8,
            OpCode::BcEmitPrintLnOp => 198u8,
            OpCode::BcEmitWriteFileOp => 199u8,
            OpCode::BcEmitAddOp => 200u8,
            OpCode::BcEmitSubOp => 201u8,
            OpCode::BcEmitMulOp => 202u8,
            OpCode::BcEmitDivOp => 203u8,
            OpCode::BcEmitEqOp => 204u8,
            OpCode::BcEmitNeOp => 205u8,
            OpCode::BcEmitLtOp => 206u8,
            OpCode::BcEmitLeOp => 207u8,
            OpCode::BcEmitGtOp => 208u8,
            OpCode::BcEmitGeOp => 209u8,
            OpCode::BcEmitAndOp => 210u8,
            OpCode::BcEmitOrOp => 211u8,
            OpCode::BcEmitNotOp => 212u8,
            OpCode::BcEmitNegOp => 213u8,
            OpCode::BcEmitStrLenOp => 214u8,
            OpCode::BcEmitStrConcatOp => 215u8,
            OpCode::BcEmitStrSubstrOp => 216u8,
            OpCode::BcEmitStrReplaceOp => 217u8,
            OpCode::BcEmitVecNewOp => 218u8,
            OpCode::BcEmitVecLenOp => 219u8,
            OpCode::BcEmitVecGetOp => 220u8,
            OpCode::BcEmitVecSetOp => 221u8,
            OpCode::BcEmitVecPushOp => 222u8,
            OpCode::BcEmitVecRemoveOp => 223u8,
            OpCode::BcEmitVecLastOp => 224u8,
            OpCode::BcEmitVecPopOp => 225u8,
            OpCode::BcEmitVecClearOp => 226u8,
            OpCode::BcEmitMapNewOp => 227u8,
            OpCode::BcEmitMapLenOp => 228u8,
            OpCode::BcEmitMapSetOp => 229u8,
            OpCode::BcEmitMapGetOp => 230u8,
            OpCode::BcEmitMapHasOp => 231u8,
            OpCode::BcEmitMapRemoveOp => 232u8,
            OpCode::BcEmitMapClearOp => 233u8,
            OpCode::BcEmitReadFileOp => 234u8,
            OpCode::BcEmitArgCountOp => 235u8,
            OpCode::BcEmitArgOp => 236u8,
            OpCode::BcEmitEnvGetOp => 237u8,
            OpCode::BcEmitEnvHasOp => 238u8,
            OpCode::BcEmitCwdOp => 239u8,
            OpCode::BcEmitPathJoinOp => 240u8,
            OpCode::BcEmitFsExistsOp => 241u8,
            OpCode::BcEmitFsListDirOp => 242u8,
            OpCode::BcEmitNowTimestampOp => 243u8,
            OpCode::MetaBcNew => 244u8,
            OpCode::MetaBcMain => 245u8,
            OpCode::MetaBcWrite => 246u8,
            OpCode::MetaBcFuncBegin => 247u8,
            OpCode::MetaBcFuncEnd => 248u8,
            OpCode::MetaBcEmitHalt => 249u8,
            OpCode::MetaBcLabel => 250u8,
            OpCode::MetaBcJump => 251u8,
            OpCode::MetaBcJumpIfFalse => 252u8,
            OpCode::Halt => 253u8,
        }
    }

    /// The byte that stands for this operation in encoded bytecode.
    #[verifier::when_used_as_spec(spec_code)]
    pub fn code(self) -> (b: u8)
        ensures
            b == self.spec_code(),
    {
        match self {
            OpCode::ConstInt => 0u8,
            OpCode::ConstBool => 1u8,
            OpCode::ConstStr => 2u8,
            OpCode::Load => 3u8,
            OpCode::Store => 4u8,
            OpCode::Add => 5u8,
            OpCode::Sub => 6u8,
            OpCode::Mul => 7u8,
            OpCode::Div => 8u8,
            OpCode::Eq => 9u8,
            OpCode::Ne => 10u8,
            OpCode::Lt => 11u8,
            OpCode::Le => 12u8,
            OpCode::Gt => 13u8,
            OpCode::Ge => 14u8,
            OpCode::StrEq => 15u8,
            OpCode::StrNe => 16u8,
            OpCode::And => 17u8,
            OpCode::Or => 18u8,
            OpCode::Not => 19u8,
            OpCode::Neg => 20u8,
            OpCode::Jump => 21u8,
            OpCode::JumpIfFalse => 22u8,
            OpCode::PrintLn => 23u8,
            OpCode::ReadInt => 24u8,
            OpCode::ReadBool => 25u8,
            OpCode::ReadStr => 26u8,
            OpCode::Call => 27u8,
            OpCode::Ret => 28u8,
            OpCode::RetVal => 29u8,
            OpCode::AllocArray => 30u8,
            OpCode::LoadIndex => 31u8,
            OpCode::StoreIndex => 32u8,
            OpCode::ReadFile => 33u8,
            OpCode::WriteFile => 34u8,
            OpCode::ArgCount => 35u8,
            OpCode::Arg => 36u8,
            OpCode::StrLen => 37u8,
            OpCode::StrConcat => 38u8,
            OpCode::StrSubstr => 39u8,
            OpCode::StrReplace => 40u8,
            OpCode::VecNew => 41u8,
            OpCode::VecLen => 42u8,
            OpCode::VecGet => 43u8,
            OpCode::VecSet => 44u8,
            OpCode::VecPush => 45u8,
            OpCode::VecRemove => 46u8,
            OpCode::VecLast => 47u8,
            OpCode::VecPop => 48u8,
            OpCode::StackNew => 49u8,
            OpCode::StackLen => 50u8,
            OpCode::StackPush => 51u8,
            OpCode::StackTop => 52u8,
            OpCode::StackPop => 53u8,
            OpCode::MapNew => 54u8,
            OpCode::MapLen => 55u8,
            OpCode::MapSet => 56u8,
            OpCode::MapGet => 57u8,
            OpCode::MapHas => 58u8,
            OpCode::MapRemove => 59u8,
            OpCode::SetNew => 60u8,
            OpCode::SetLen => 61u8,
            OpCode::SetAdd => 62u8,
            OpCode::SetHas => 63u8,
            OpCode::SetRemove => 64u8,
            OpCode::OptSomeInt => 65u8,
            OpCode::OptSomeBool => 66u8,
            OpCode::OptSomeStr => 67u8,
            OpCode::OptNoneInt => 68u8,
            OpCode::OptNoneBool => 69u8,
            OpCode::OptNoneStr => 70u8,
            OpCode::OptIsSomeInt => 71u8,
            OpCode::OptIsSomeBool => 72u8,
            OpCode::OptIsSomeStr => 73u8,
            OpCode::OptUnwrapInt => 74u8,
            OpCode::OptUnwrapBool => 75u8,
            OpCode::OptUnwrapStr => 76u8,
            OpCode::OptUnwrapOrInt => 77u8,
            OpCode::OptUnwrapOrBool => 78u8,
            OpCode::OptUnwrapOrStr => 79u8,
            OpCode::ResOkInt => 80u8,
            OpCode::ResOkBool => 81u8,
            OpCode::ResOkStr => 82u8,
            OpCode::ResErrInt => 83u8,
            OpCode::ResErrBool => 84u8,
            OpCode::ResErrStr => 85u8,
            OpCode::ResIsOkInt => 86u8,
            OpCode::ResIsOkBool => 87u8,
            OpCode::ResIsOkStr => 88u8,
            OpCode::ResUnwrapInt => 89u8,
            OpCode::ResUnwrapBool => 90u8,
            OpCode::ResUnwrapStr => 91u8,
            OpCode::ResUnwrapOrInt => 92u8,
            OpCode::ResUnwrapOrBool => 93u8,
            OpCode::ResUnwrapOrStr => 94u8,
            OpCode::ResUnwrapErrInt => 95u8,
            OpCode::ResUnwrapErrBool => 96u8,
            OpCode::ResUnwrapErrStr => 97u8,
            OpCode::StrClear => 98u8,
            OpCode::VecClear => 99u8,
            OpCode::StackClear => 100u8,
            OpCode::MapClear => 101u8,
            OpCode::SetClear => 102u8,
            OpCode::EnvGet => 103u8,
            OpCode::EnvHas => 104u8,
            OpCode::Cwd => 105u8,
            OpCode::PathJoin => 106u8,
            OpCode::FsExists => 107u8,
            OpCode::FsListDir => 108u8,
            OpCode::NowTimestamp => 109u8,
            OpCode::SleepMs => 110u8,
            OpCode::LogStr => 111u8,
            OpCode::LogInt => 112u8,
            OpCode::LogBool => 113u8,
            OpCode::BcNew => 114u8,
            OpCode::BcMain => 115u8,
            OpCode::BcEmitPrintStr => 116u8,
            OpCode::BcEmitHalt => 117u8,
            OpCode::BcWrite => 118u8,
            OpCode::BcEmitConstInt => 119u8,
            OpCode::BcEmitStore0 => 120u8,
            OpCode::BcEmitLoad0 => 121u8,
            OpCode::BcEmitPrintLn => 122u8,
            OpCode::BcEmitConstBool => 123u8,
            OpCode::BcLabel => 124u8,
            OpCode::BcJump => 125u8,
            OpCode::BcJumpIfFalse => 126u8,
            OpCode::BcEmitConstStr => 127u8,
            OpCode::BcEmitLoad => 128u8,
            OpCode::BcEmitStore => 129u8,
            OpCode::BcEmitAdd => 130u8,
            OpCode::BcEmitSub => 131u8,
            OpCode::BcEmitMul => 132u8,
            OpCode::BcEmitDiv => 133u8,
            OpCode::BcEmitEq => 134u8,
            OpCode::BcEmitNe => 135u8,
            OpCode::BcEmitLt => 136u8,
            OpCode::BcEmitLe => 137u8,
            OpCode::BcEmitGt => 138u8,
            OpCode::BcEmitGe => 139u8,
            OpCode::BcEmitAnd => 140u8,
            OpCode::BcEmitOr => 141u8,
            OpCode::BcEmitNot => 142u8,
            OpCode::BcEmitNeg => 143u8,
            OpCode::BcEmitStrLen => 144u8,
            OpCode::BcEmitStrConcat => 145u8,
            OpCode::BcEmitStrSubstr => 146u8,
            OpCode::BcEmitStrReplace => 147u8,
            OpCode::BcEmitVecNew => 148u8,
            OpCode::BcEmitVecLen => 149u8,
            OpCode::BcEmitVecGet => 150u8,
            OpCode::BcEmitVecSet => 151u8,
            OpCode::BcEmitVecPush => 152u8,
            OpCode::BcEmitVecRemove => 153u8,
            OpCode::BcEmitVecLast => 154u8,
            OpCode::BcEmitVecPop => 155u8,
            OpCode::BcEmitMapNew => 156u8,
            OpCode::BcEmitMapLen => 157u8,
            OpCode::BcEmitMapSet => 158u8,
            OpCode::BcEmitMapGet => 159u8,
            OpCode::BcEmitMapHas => 160u8,
            OpCode::BcEmitMapRemove => 161u8,
            OpCode::BcEmitReadFile => 162u8,
            OpCode::BcEmitWriteFile => 163u8,
            OpCode::BcEmitArgCount => 164u8,
            OpCode::BcEmitArg => 165u8,
            OpCode::BcEmitStrClear => 166u8,
            OpCode::BcEmitVecClear => 167u8,
            OpCode::BcEmitMapClear => 168u8,
            OpCode::BcFuncBegin => 169u8,
            OpCode::BcFuncEnd => 170u8,
            OpCode::BcEmitCall => 171u8,
            OpCode::BcEmitRet => 172u8,
            OpCode::BcEmitRetVal => 173u8,
            OpCode::BcEmitEnvGet => 174u8,
            OpCode::BcEmitEnvHas => 175u8,
            OpCode::BcEmitCwd => 176u8,
            OpCode::BcEmitPathJoin => 177u8,
            OpCode::BcEmitFsExists => 178u8,
            OpCode::BcEmitFsListDir => 179u8,
            OpCode::BcEmitNowTimestamp => 180u8,
            OpCode::BcEmitConstIntOp => 181u8,
            OpCode::BcEmitConstBoolOp => 182u8,
            OpCode::BcEmitConstStrOp => 183u8,
            OpCode::BcEmitLoadOp => 184u8,
            OpCode::BcEmitStoreOp => 185u8,
            OpCode::BcEmitCallOp => 186u8,
            OpCode::BcNewOp => 187u8,
            OpCode::BcWriteOp => 188u8,
            OpCode::BcLabelOp => 189u8,
            OpCode::BcJumpOp => 190u8,
            OpCode::BcJumpIfFalseOp => 191u8,
            OpCode::BcFuncBeginOp => 192u8,
            OpCode::BcMainOp => 193u8,
            OpCode::BcFuncEndOp => 194u8,
            OpCode::BcEmitHaltOp => 195u8,
            OpCode::BcEmitRetOp => 196u8,
            OpCode::BcEmitRetValOp => 197u8,
            OpCode::BcEmitPrintLnOp => 198u8,
            OpCode::BcEmitWriteFileOp => 199u8,
            OpCode::BcEmitAddOp => 200u8,
            OpCode::BcEmitSubOp => 201u8,
            OpCode::BcEmitMulOp => 202u8,
            OpCode::BcEmitDivOp => 203u8,
            OpCode::BcEmitEqOp => 204u8,
            OpCode::BcEmitNeOp => 205u8,
            OpCode::BcEmitLtOp => 206u8,
            OpCode::BcEmitLeOp => 207u8,
            OpCode::BcEmitGtOp => 208u8,
            OpCode::BcEmitGeOp => 209u8,
            OpCode::BcEmitAndOp => 210u8,
            OpCode::BcEmitOrOp => 211u8,
            OpCode::BcEmitNotOp => 212u8,
            OpCode::BcEmitNegOp => 213u8,
            OpCode::BcEmitStrLenOp => 214u8,
            OpCode::BcEmitStrConcatOp => 215u8,
            OpCode::BcEmitStrSubstrOp => 216u8,
            OpCode::BcEmitStrReplaceOp => 217u8,
            OpCode::BcEmitVecNewOp => 218u8,
            OpCode::BcEmitVecLenOp => 219u8,
            OpCode::BcEmitVecGetOp => 220u8,
            OpCode::BcEmitVecSetOp => 221u8,
            OpCode::BcEmitVecPushOp => 222u8,
            OpCode::BcEmitVecRemoveOp => 223u8,
            OpCode::BcEmitVecLastOp => 224u8,
            OpCode::BcEmitVecPopOp => 225u8,
            OpCode::BcEmitVecClearOp => 226u8,
            OpCode::BcEmitMapNewOp => 227u8,
            OpCode::BcEmitMapLenOp => 228u8,
            OpCode::BcEmitMapSetOp => 229u8,
            OpCode::BcEmitMapGetOp => 230u8,
            OpCode::BcEmitMapHasOp => 231u8,
            OpCode::BcEmitMapRemoveOp => 232u8,
            OpCode::BcEmitMapClearOp => 233u8,
            OpCode::BcEmitReadFileOp => 234u8,
            OpCode::BcEmitArgCountOp => 235u8,
            OpCode::BcEmitArgOp => 236u8,
            OpCode::BcEmitEnvGetOp => 237u8,
            OpCode::BcEmitEnvHasOp => 238u8,
            OpCode::BcEmitCwdOp => 239u8,
            OpCode::BcEmitPathJoinOp => 240u8,
            OpCode::BcEmitFsExistsOp => 241u8,
            OpCode::BcEmitFsListDirOp => 242u8,
            OpCode::BcEmitNowTimestampOp => 243u8,
            OpCode::MetaBcNew => 244u8,
            OpCode::MetaBcMain => 245u8,
            OpCode::MetaBcWrite => 246u8,
            OpCode::MetaBcFuncBegin => 247u8,
            OpCode::MetaBcFuncEnd => 248u8,
            OpCode::MetaBcEmitHalt => 249u8,
            OpCode::MetaBcLabel => 250u8,
            OpCode::MetaBcJump => 251u8,
            OpCode::MetaBcJumpIfFalse => 252u8,
            OpCode::Halt => 253u8,
        }
    }

    /// The operation that a byte stands for, if any.
    pub open spec fn spec_from_code(b: u8) -> Option<OpCode> {
        match b {
            0u8 => Some(OpCode::ConstInt),
            1u8 => Some(OpCode::ConstBool),
            2u8 => Some(OpCode::ConstStr),
            3u8 => Some(OpCode::Load),
            4u8 => Some(OpCode::Store),
            5u8 => Some(OpCode::Add),
            6u8 => Some(OpCode::Sub),
            7u8 => Some(OpCode::Mul),
            8u8 => Some(OpCode::Div),
            9u8 => Some(OpCode::Eq),
            10u8 => Some(OpCode::Ne),
            11u8 => Some(OpCode::Lt),
            12u8 => Some(OpCode::Le),
            13u8 => Some(OpCode::Gt),
            14u8 => Some(OpCode::Ge),
            15u8 => Some(OpCode::StrEq),
            16u8 => Some(OpCode::StrNe),
            17u8 => Some(OpCode::And),
            18u8 => Some(OpCode::Or),
            19u8 => Some(OpCode::Not),
            20u8 => Some(OpCode::Neg),
            21u8 => Some(OpCode::Jump),
            22u8 => Some(OpCode::JumpIfFalse),
            23u8 => Some(OpCode::PrintLn),
            24u8 => Some(OpCode::ReadInt),
            25u8 => Some(OpCode::ReadBool),
            26u8 => Some(OpCode::ReadStr),
            27u8 => Some(OpCode::Call),
            28u8 => Some(OpCode::Ret),
            29u8 => Some(OpCode::RetVal),
            30u8 => Some(OpCode::AllocArray),
            31u8 => Some(OpCode::LoadIndex),
            32u8 => Some(OpCode::StoreIndex),
            33u8 => Some(OpCode::ReadFile),
            34u8 => Some(OpCode::WriteFile),
            35u8 => Some(OpCode::ArgCount),
            36u8 => Some(OpCode::Arg),
            37u8 => Some(OpCode::StrLen),
            38u8 => Some(OpCode::StrConcat),
            39u8 => Some(OpCode::StrSubstr),
            40u8 => Some(OpCode::StrReplace),
            41u8 => Some(OpCode::VecNew),
            42u8 => Some(OpCode::VecLen),
            43u8 => Some(OpCode::VecGet),
            44u8 => Some(OpCode::VecSet),
            45u8 => Some(OpCode::VecPush),
            46u8 => Some(OpCode::VecRemove),
            47u8 => Some(OpCode::VecLast),
            48u8 => Some(OpCode::VecPop),
            49u8 => Some(OpCode::StackNew),
            50u8 => Some(OpCode::StackLen),
            51u8 => Some(OpCode::StackPush),
            52u8 => Some(OpCode::StackTop),
            53u8 => Some(OpCode::StackPop),
            54u8 => Some(OpCode::MapNew),
            55u8 => Some(OpCode::MapLen),
            56u8 => Some(OpCode::MapSet),
            57u8 => Some(OpCode::MapGet),
            58u8 => Some(OpCode::MapHas),
            59u8 => Some(OpCode::MapRemove),
            60u8 => Some(OpCode::SetNew),
            61u8 => Some(OpCode::SetLen),
            62u8 => Some(OpCode::SetAdd),
            63u8 => Some(OpCode::SetHas),
            64u8 => Some(OpCode::SetRemove),
            65u8 => Some(OpCode::OptSomeInt),
            66u8 => Some(OpCode::OptSomeBool),
            67u8 => Some(OpCode::OptSomeStr),
            68u8 => Some(OpCode::OptNoneInt),
            69u8 => Some(OpCode::OptNoneBool),
            70u8 => Some(OpCode::OptNoneStr),
            71u8 => Some(OpCode::OptIsSomeInt),
            72u8 => Some(OpCode::OptIsSomeBool),
            73u8 => Some(OpCode::OptIsSomeStr),
            74u8 => Some(OpCode::OptUnwrapInt),
            75u8 => Some(OpCode::OptUnwrapBool),
            76u8 => Some(OpCode::OptUnwrapStr),
            77u8 => Some(OpCode::OptUnwrapOrInt),
            78u8 => Some(OpCode::OptUnwrapOrBool),
            79u8 => Some(OpCode::OptUnwrapOrStr),
            80u8 => Some(OpCode::ResOkInt),
            81u8 => Some(OpCode::ResOkBool),
            82u8 => Some(OpCode::ResOkStr),
            83u8 => Some(OpCode::ResErrInt),
            84u8 => Some(OpCode::ResErrBool),
            85u8 => Some(OpCode::ResErrStr),
            86u8 => Some(OpCode::ResIsOkInt),
            87u8 => Some(OpCode::ResIsOkBool),
            88u8 => Some(OpCode::ResIsOkStr),
            89u8 => Some(OpCode::ResUnwrapInt),
            90u8 => Some(OpCode::ResUnwrapBool),
            91u8 => Some(OpCode::ResUnwrapStr),
            92u8 => Some(OpCode::ResUnwrapOrInt),
            93u8 => Some(OpCode::ResUnwrapOrBool),
            94u8 => Some(OpCode::ResUnwrapOrStr),
            95u8 => Some(OpCode::ResUnwrapErrInt),
            96u8 => Some(OpCode::ResUnwrapErrBool),
            97u8 => Some(OpCode::ResUnwrapErrStr),
            98u8 => Some(OpCode::StrClear),
            99u8 => Some(OpCode::VecClear),
            100u8 => Some(OpCode::StackClear),
            101u8 => Some(OpCode::MapClear),
            102u8 => Some(OpCode::SetClear),
            103u8 => Some(OpCode::EnvGet),
            104u8 => Some(OpCode::EnvHas),
            105u8 => Some(OpCode::Cwd),
            106u8 => Some(OpCode::PathJoin),
            107u8 => Some(OpCode::FsExists),
            108u8 => Some(OpCode::FsListDir),
            109u8 => Some(OpCode::NowTimestamp),
            110u8 => Some(OpCode::SleepMs),
            111u8 => Some(OpCode::LogStr),
            112u8 => Some(OpCode::LogInt),
            113u8 => Some(OpCode::LogBool),
            114u8 => Some(OpCode::BcNew),
            115u8 => Some(OpCode::BcMain),
            116u8 => Some(OpCode::BcEmitPrintStr),
            117u8 => Some(OpCode::BcEmitHalt),
            118u8 => Some(OpCode::BcWrite),
            119u8 => Some(OpCode::BcEmitConstInt),
            120u8 => Some(OpCode::BcEmitStore0),
            121u8 => Some(OpCode::BcEmitLoad0),
            122u8 => Some(OpCode::BcEmitPrintLn),
            123u8 => Some(OpCode::BcEmitConstBool),
            124u8 => Some(OpCode::BcLabel),
            125u8 => Some(OpCode::BcJump),
            126u8 => Some(OpCode::BcJumpIfFalse),
            127u8 => Some(OpCode::BcEmitConstStr),
            128u8 => Some(OpCode::BcEmitLoad),
            129u8 => Some(OpCode::BcEmitStore),
            130u8 => Some(OpCode::BcEmitAdd),
            131u8 => Some(OpCode::BcEmitSub),
            132u8 => Some(OpCode::BcEmitMul),
            133u8 => Some(OpCode::BcEmitDiv),
            134u8 => Some(OpCode::BcEmitEq),
            135u8 => Some(OpCode::BcEmitNe),
            136u8 => Some(OpCode::BcEmitLt),
            137u8 => Some(OpCode::BcEmitLe),
            138u8 => Some(OpCode::BcEmitGt),
            139u8 => Some(OpCode::BcEmitGe),
            140u8 => Some(OpCode::BcEmitAnd),
            141u8 => Some(OpCode::BcEmitOr),
            142u8 => Some(OpCode::BcEmitNot),
            143u8 => Some(OpCode::BcEmitNeg),
            144u8 => Some(OpCode::BcEmitStrLen),
            145u8 => Some(OpCode::BcEmitStrConcat),
            146u8 => Some(OpCode::BcEmitStrSubstr),
            147u8 => Some(OpCode::BcEmitStrReplace),
            148u8 => Some(OpCode::BcEmitVecNew),
            149u8 => Some(OpCode::BcEmitVecLen),
            150u8 => Some(OpCode::BcEmitVecGet),
            151u8 => Some(OpCode::BcEmitVecSet),
            152u8 => Some(OpCode::BcEmitVecPush),
            153u8 => Some(OpCode::BcEmitVecRemove),
            154u8 => Some(OpCode::BcEmitVecLast),
            155u8 => Some(OpCode::BcEmitVecPop),
            156u8 => Some(OpCode::BcEmitMapNew),
            157u8 => Some(OpCode::BcEmitMapLen),
            158u8 => Some(OpCode::BcEmitMapSet),
            159u8 => Some(OpCode::BcEmitMapGet),
            160u8 => Some(OpCode::BcEmitMapHas),
            161u8 => Some(OpCode::BcEmitMapRemove),
            162u8 => Some(OpCode::BcEmitReadFile),
            163u8 => Some(OpCode::BcEmitWriteFile),
            164u8 => Some(OpCode::BcEmitArgCount),
            165u8 => Some(OpCode::BcEmitArg),
            166u8 => Some(OpCode::BcEmitStrClear),
            167u8 => Some(OpCode::BcEmitVecClear),
            168u8 => Some(OpCode::BcEmitMapClear),
            169u8 => Some(OpCode::BcFuncBegin),
            170u8 => Some(OpCode::BcFuncEnd),
            171u8 => Some(OpCode::BcEmitCall),
            172u8 => Some(OpCode::BcEmitRet),
            173u8 => Some(OpCode::BcEmitRetVal),
            174u8 => Some(OpCode::BcEmitEnvGet),
            175u8 => Some(OpCode::BcEmitEnvHas),
            176u8 => Some(OpCode::BcEmitCwd),
            177u8 => Some(OpCode::BcEmitPathJoin),
            178u8 => Some(OpCode::BcEmitFsExists),
            179u8 => Some(OpCode::BcEmitFsListDir),
            180u8 => Some(OpCode::BcEmitNowTimestamp),
            181u8 => Some(OpCode::BcEmitConstIntOp),
            182u8 => Some(OpCode::BcEmitConstBoolOp),
            183u8 => Some(OpCode::BcEmitConstStrOp),
            184u8 => Some(OpCode::BcEmitLoadOp),
            185u8 => Some(OpCode::BcEmitStoreOp),
            186u8 => Some(OpCode::BcEmitCallOp),
            187u8 => Some(OpCode::BcNewOp),
            188u8 => Some(OpCode::BcWriteOp),
            189u8 => Some(OpCode::BcLabelOp),
            190u8 => Some(OpCode::BcJumpOp),
            191u8 => Some(OpCode::BcJumpIfFalseOp),
            192u8 => Some(OpCode::BcFuncBeginOp),
            193u8 => Some(OpCode::BcMainOp),
            194u8 => Some(OpCode::BcFuncEndOp),
            195u8 => Some(OpCode::BcEmitHaltOp),
            196u8 => Some(OpCode::BcEmitRetOp),
            197u8 => Some(OpCode::BcEmitRetValOp),
            198u8 => Some(OpCode::BcEmitPrintLnOp),
            199u8 => Some(OpCode::BcEmitWriteFileOp),
            200u8 => Some(OpCode::BcEmitAddOp),
            201u8 => Some(OpCode::BcEmitSubOp),
            202u8 => Some(OpCode::BcEmitMulOp),
            203u8 => Some(OpCode::BcEmitDivOp),
            204u8 => Some(OpCode::BcEmitEqOp),
            205u8 => Some(OpCode::BcEmitNeOp),
            206u8 => Some(OpCode::BcEmitLtOp),
            207u8 => Some(OpCode::BcEmitLeOp),
            208u8 => Some(OpCode::BcEmitGtOp),
            209u8 => Some(OpCode::BcEmitGeOp),
            210u8 => Some(OpCode::BcEmitAndOp),
            211u8 => Some(OpCode::BcEmitOrOp),
            212u8 => Some(OpCode::BcEmitNotOp),
            213u8 => Some(OpCode::BcEmitNegOp),
            214u8 => Some(OpCode::BcEmitStrLenOp),
            215u8 => Some(OpCode::BcEmitStrConcatOp),
            216u8 => Some(OpCode::BcEmitStrSubstrOp),
            217u8 => Some(OpCode::BcEmitStrReplaceOp),
            218u8 => Some(OpCode::BcEmitVecNewOp),
            219u8 => Some(OpCode::BcEmitVecLenOp),
            220u8 => Some(OpCode::BcEmitVecGetOp),
            221u8 => Some(OpCode::BcEmitVecSetOp),
            222u8 => Some(OpCode::BcEmitVecPushOp),
            223u8 => Some(OpCode::BcEmitVecRemoveOp),
            224u8 => Some(OpCode::BcEmitVecLastOp),
            225u8 => Some(OpCode::BcEmitVecPopOp),
            226u8 => Some(OpCode::BcEmitVecClearOp),
            227u8 => Some(OpCode::BcEmitMapNewOp),
            228u8 => Some(OpCode::BcEmitMapLenOp),
            229u8 => Some(OpCode::BcEmitMapSetOp),
            230u8 => Some(OpCode::BcEmitMapGetOp),
            231u8 => Some(OpCode::BcEmitMapHasOp),
            232u8 => Some(OpCode::BcEmitMapRemoveOp),
            233u8 => Some(OpCode::BcEmitMapClearOp),
            234u8 => Some(OpCode::BcEmitReadFileOp),
            235u8 => Some(OpCode::BcEmitArgCountOp),
            236u8 => Some(OpCode::BcEmitArgOp),
            237u8 => Some(OpCode::BcEmitEnvGetOp),
            238u8 => Some(OpCode::BcEmitEnvHasOp),
            239u8 => Some(OpCode::BcEmitCwdOp),
            240u8 => Some(OpCode::BcEmitPathJoinOp),
            241u8 => Some(OpCode::BcEmitFsExistsOp),
            242u8 => Some(OpCode::BcEmitFsListDirOp),
            243u8 => Some(OpCode::BcEmitNowTimestampOp),
            244u8 => Some(OpCode::MetaBcNew),
            245u8 => Some(OpCode::MetaBcMain),
            246u8 => Some(OpCode::MetaBcWrite),
            247u8 => Some(OpCode::MetaBcFuncBegin),
            248u8 => Some(OpCode::MetaBcFuncEnd),
            249u8 => Some(OpCode::MetaBcEmitHalt),
            250u8 => Some(OpCode::MetaBcLabel),
            251u8 => Some(OpCode::MetaBcJump),
            252u8 => Some(OpCode::MetaBcJumpIfFalse),
            253u8 => Some(OpCode::Halt),
            _ => None,
        }
    }

    /// The operation that a byte stands for, if any.
    #[verifier::when_used_as_spec(spec_from_code)]
    pub fn from_code(b: u8) -> (r: Option<OpCode>)
        ensures
            r == Self::spec_from_code(b),
    {
        match b {
            0u8 => Some(OpCode::ConstInt),
            1u8 => Some(OpCode::ConstBool),
            2u8 => Some(OpCode::ConstStr),
            3u8 => Some(OpCode::Load),
            4u8 => Some(OpCode::Store),
            5u8 => Some(OpCode::Add),
            6u8 => Some(OpCode::Sub),
            7u8 => Some(OpCode::Mul),
            8u8 => Some(OpCode::Div),
            9u8 => Some(OpCode::Eq),
            10u8 => Some(OpCode::Ne),
            11u8 => Some(OpCode::Lt),
            12u8 => Some(OpCode::Le),
            13u8 => Some(OpCode::Gt),
            14u8 => Some(OpCode::Ge),
            15u8 => Some(OpCode::StrEq),
            16u8 => Some(OpCode::StrNe),
            17u8 => Some(OpCode::And),
            18u8 => Some(OpCode::Or),
            19u8 => Some(OpCode::Not),
            20u8 => Some(OpCode::Neg),
            21u8 => Some(OpCode::Jump),
            22u8 => Some(OpCode::JumpIfFalse),
            23u8 => Some(OpCode::PrintLn),
            24u8 => Some(OpCode::ReadInt),
            25u8 => Some(OpCode::ReadBool),
            26u8 => Some(OpCode::ReadStr),
            27u8 => Some(OpCode::Call),
            28u8 => Some(OpCode::Ret),
            29u8 => Some(OpCode::RetVal),
            30u8 => Some(OpCode::AllocArray),
            31u8 => Some(OpCode::LoadIndex),
            32u8 => Some(OpCode::StoreIndex),
            33u8 => Some(OpCode::ReadFile),
            34u8 => Some(OpCode::WriteFile),
            35u8 => Some(OpCode::ArgCount),
            36u8 => Some(OpCode::Arg),
            37u8 => Some(OpCode::StrLen),
            38u8 => Some(OpCode::StrConcat),
            39u8 => Some(OpCode::StrSubstr),
            40u8 => Some(OpCode::StrReplace),
            41u8 => Some(OpCode::VecNew),
            42u8 => Some(OpCode::VecLen),
            43u8 => Some(OpCode::VecGet),
            44u8 => Some(OpCode::VecSet),
            45u8 => Some(OpCode::VecPush),
            46u8 => Some(OpCode::VecRemove),
            47u8 => Some(OpCode::VecLast),
            48u8 => Some(OpCode::VecPop),
            49u8 => Some(OpCode::StackNew),
            50u8 => Some(OpCode::StackLen),
            51u8 => Some(OpCode::StackPush),
            52u8 => Some(OpCode::StackTop),
            53u8 => Some(OpCode::StackPop),
            54u8 => Some(OpCode::MapNew),
            55u8 => Some(OpCode::MapLen),
            56u8 => Some(OpCode::MapSet),
            57u8 => Some(OpCode::MapGet),
            58u8 => Some(OpCode::MapHas),
            59u8 => Some(OpCode::MapRemove),
            60u8 => Some(OpCode::SetNew),
            61u8 => Some(OpCode::SetLen),
            62u8 => Some(OpCode::SetAdd),
            63u8 => Some(OpCode::SetHas),
            64u8 => Some(OpCode::SetRemove),
            65u8 => Some(OpCode::OptSomeInt),
            66u8 => Some(OpCode::OptSomeBool),
            67u8 => Some(OpCode::OptSomeStr),
            68u8 => Some(OpCode::OptNoneInt),
            69u8 => Some(OpCode::OptNoneBool),
            70u8 => Some(OpCode::OptNoneStr),
            71u8 => Some(OpCode::OptIsSomeInt),
            72u8 => Some(OpCode::OptIsSomeBool),
            73u8 => Some(OpCode::OptIsSomeStr),
            74u8 => Some(OpCode::OptUnwrapInt),
            75u8 => Some(OpCode::OptUnwrapBool),
            76u8 => Some(OpCode::OptUnwrapStr),
            77u8 => Some(OpCode::OptUnwrapOrInt),
            78u8 => Some(OpCode::OptUnwrapOrBool),
            79u8 => Some(OpCode::OptUnwrapOrStr),
            80u8 => Some(OpCode::ResOkInt),
            81u8 => Some(OpCode::ResOkBool),
            82u8 => Some(OpCode::ResOkStr),
            83u8 => Some(OpCode::ResErrInt),
            84u8 => Some(OpCode::ResErrBool),
            85u8 => Some(OpCode::ResErrStr),
            86u8 => Some(OpCode::ResIsOkInt),
            87u8 => Some(OpCode::ResIsOkBool),
            88u8 => Some(OpCode::ResIsOkStr),
            89u8 => Some(OpCode::ResUnwrapInt),
            90u8 => Some(OpCode::ResUnwrapBool),
            91u8 => Some(OpCode::ResUnwrapStr),
            92u8 => Some(OpCode::ResUnwrapOrInt),
            93u8 => Some(OpCode::ResUnwrapOrBool),
            94u8 => Some(OpCode::ResUnwrapOrStr),
            95u8 => Some(OpCode::ResUnwrapErrInt),
            96u8 => Some(OpCode::ResUnwrapErrBool),
            97u8 => Some(OpCode::ResUnwrapErrStr),
            98u8 => Some(OpCode::StrClear),
            99u8 => Some(OpCode::VecClear),
            100u8 => Some(OpCode::StackClear),
            101u8 => Some(OpCode::MapClear),
            102u8 => Some(OpCode::SetClear),
            103u8 => Some(OpCode::EnvGet),
            104u8 => Some(OpCode::EnvHas),
            105u8 => Some(OpCode::Cwd),
            106u8 => Some(OpCode::PathJoin),
            107u8 => Some(OpCode::FsExists),
            108u8 => Some(OpCode::FsListDir),
            109u8 => Some(OpCode::NowTimestamp),
            110u8 => Some(OpCode::SleepMs),
            111u8 => Some(OpCode::LogStr),
            112u8 => Some(OpCode::LogInt),
            113u8 => Some(OpCode::LogBool),
            114u8 => Some(OpCode::BcNew),
            115u8 => Some(OpCode::BcMain),
            116u8 => Some(OpCode::BcEmitPrintStr),
            117u8 => Some(OpCode::BcEmitHalt),
            118u8 => Some(OpCode::BcWrite),
            119u8 => Some(OpCode::BcEmitConstInt),
            120u8 => Some(OpCode::BcEmitStore0),
            121u8 => Some(OpCode::BcEmitLoad0),
            122u8 => Some(OpCode::BcEmitPrintLn),
            123u8 => Some(OpCode::BcEmitConstBool),
            124u8 => Some(OpCode::BcLabel),
            125u8 => Some(OpCode::BcJump),
            126u8 => Some(OpCode::BcJumpIfFalse),
            127u8 => Some(OpCode::BcEmitConstStr),
            128u8 => Some(OpCode::BcEmitLoad),
            129u8 => Some(OpCode::BcEmitStore),
            130u8 => Some(OpCode::BcEmitAdd),
            131u8 => Some(OpCode::BcEmitSub),
            132u8 => Some(OpCode::BcEmitMul),
            133u8 => Some(OpCode::BcEmitDiv),
            134u8 => Some(OpCode::BcEmitEq),
            135u8 => Some(OpCode::BcEmitNe),
            136u8 => Some(OpCode::BcEmitLt),
            137u8 => Some(OpCode::BcEmitLe),
            138u8 => Some(OpCode::BcEmitGt),
            139u8 => Some(OpCode::BcEmitGe),
            140u8 => Some(OpCode::BcEmitAnd),
            141u8 => Some(OpCode::BcEmitOr),
            142u8 => Some(OpCode::BcEmitNot),
            143u8 => Some(OpCode::BcEmitNeg),
            144u8 => Some(OpCode::BcEmitStrLen),
            145u8 => Some(OpCode::BcEmitStrConcat),
            146u8 => Some(OpCode::BcEmitStrSubstr),
            147u8 => Some(OpCode::BcEmitStrReplace),
            148u8 => Some(OpCode::BcEmitVecNew),
            149u8 => Some(OpCode::BcEmitVecLen),
            150u8 => Some(OpCode::BcEmitVecGet),
            151u8 => Some(OpCode::BcEmitVecSet),
            152u8 => Some(OpCode::BcEmitVecPush),
            153u8 => Some(OpCode::BcEmitVecRemove),
            154u8 => Some(OpCode::BcEmitVecLast),
            155u8 => Some(OpCode::BcEmitVecPop),
            156u8 => Some(OpCode::BcEmitMapNew),
            157u8 => Some(OpCode::BcEmitMapLen),
            158u8 => Some(OpCode::BcEmitMapSet),
            159u8 => Some(OpCode::BcEmitMapGet),
            160u8 => Some(OpCode::BcEmitMapHas),
            161u8 => Some(OpCode::BcEmitMapRemove),
            162u8 => Some(OpCode::BcEmitReadFile),
            163u8 => Some(OpCode::BcEmitWriteFile),
            164u8 => Some(OpCode::BcEmitArgCount),
            165u8 => Some(OpCode::BcEmitArg),
            166u8 => Some(OpCode::BcEmitStrClear),
            167u8 => Some(OpCode::BcEmitVecClear),
            168u8 => Some(OpCode::BcEmitMapClear),
            169u8 => Some(OpCode::BcFuncBegin),
            170u8 => Some(OpCode::BcFuncEnd),
            171u8 => Some(OpCode::BcEmitCall),
            172u8 => Some(OpCode::BcEmitRet),
            173u8 => Some(OpCode::BcEmitRetVal),
            174u8 => Some(OpCode::BcEmitEnvGet),
            175u8 => Some(OpCode::BcEmitEnvHas),
            176u8 => Some(OpCode::BcEmitCwd),
            177u8 => Some(OpCode::BcEmitPathJoin),
            178u8 => Some(OpCode::BcEmitFsExists),
            179u8 => Some(OpCode::BcEmitFsListDir),
            180u8 => Some(OpCode::BcEmitNowTimestamp),
            181u8 => Some(OpCode::BcEmitConstIntOp),
            182u8 => Some(OpCode::BcEmitConstBoolOp),
            183u8 => Some(OpCode::BcEmitConstStrOp),
            184u8 => Some(OpCode::BcEmitLoadOp),
            185u8 => Some(OpCode::BcEmitStoreOp),
            186u8 => Some(OpCode::BcEmitCallOp),
            187u8 => Some(OpCode::BcNewOp),
            188u8 => Some(OpCode::BcWriteOp),
            189u8 => Some(OpCode::BcLabelOp),
            190u8 => Some(OpCode::BcJumpOp),
            191u8 => Some(OpCode::BcJumpIfFalseOp),
            192u8 => Some(OpCode::BcFuncBeginOp),
            193u8 => Some(OpCode::BcMainOp),
            194u8 => Some(OpCode::BcFuncEndOp),
            195u8 => Some(OpCode::BcEmitHaltOp),
            196u8 => Some(OpCode::BcEmitRetOp),
            197u8 => Some(OpCode::BcEmitRetValOp),
            198u8 => Some(OpCode::BcEmitPrintLnOp),
            199u8 => Some(OpCode::BcEmitWriteFileOp),
            200u8 => Some(OpCode::BcEmitAddOp),
            201u8 => Some(OpCode::BcEmitSubOp),
            202u8 => Some(OpCode::BcEmitMulOp),
            203u8 => Some(OpCode::BcEmitDivOp),
            204u8 => Some(OpCode::BcEmitEqOp),
            205u8 => Some(OpCode::BcEmitNeOp),
            206u8 => Some(OpCode::BcEmitLtOp),
            207u8 => Some(OpCode::BcEmitLeOp),
            208u8 => Some(OpCode::BcEmitGtOp),
            209u8 => Some(OpCode::BcEmitGeOp),
            210u8 => Some(OpCode::BcEmitAndOp),
            211u8 => Some(OpCode::BcEmitOrOp),
            212u8 => Some(OpCode::BcEmitNotOp),
            213u8 => Some(OpCode::BcEmitNegOp),
            214u8 => Some(OpCode::BcEmitStrLenOp),
            215u8 => Some(OpCode::BcEmitStrConcatOp),
            216u8 => Some(OpCode::BcEmitStrSubstrOp),
            217u8 => Some(OpCode::BcEmitStrReplaceOp),
            218u8 => Some(OpCode::BcEmitVecNewOp),
            219u8 => Some(OpCode::BcEmitVecLenOp),
            220u8 => Some(OpCode::BcEmitVecGetOp),
            221u8 => Some(OpCode::BcEmitVecSetOp),
            222u8 => Some(OpCode::BcEmitVecPushOp),
            223u8 => Some(OpCode::BcEmitVecRemoveOp),
            224u8 => Some(OpCode::BcEmitVecLastOp),
            225u8 => Some(OpCode::BcEmitVecPopOp),
            226u8 => Some(OpCode::BcEmitVecClearOp),
            227u8 => Some(OpCode::BcEmitMapNewOp),
            228u8 => Some(OpCode::BcEmitMapLenOp),
            229u8 => Some(OpCode::BcEmitMapSetOp),
            230u8 => Some(OpCode::BcEmitMapGetOp),
            231u8 => Some(OpCode::BcEmitMapHasOp),
            232u8 => Some(OpCode::BcEmitMapRemoveOp),
            233u8 => Some(OpCode::BcEmitMapClearOp),
            234u8 => Some(OpCode::BcEmitReadFileOp),
            235u8 => Some(OpCode::BcEmitArgCountOp),
            236u8 => Some(OpCode::BcEmitArgOp),
            237u8 => Some(OpCode::BcEmitEnvGetOp),
            238u8 => Some(OpCode::BcEmitEnvHasOp),
            239u8 => Some(OpCode::BcEmitCwdOp),
            240u8 => Some(OpCode::BcEmitPathJoinOp),
            241u8 => Some(OpCode::BcEmitFsExistsOp),
            242u8 => Some(OpCode::BcEmitFsListDirOp),
            243u8 => Some(OpCode::BcEmitNowTimestampOp),
            244u8 => Some(OpCode::MetaBcNew),
            245u8 => Some(OpCode::MetaBcMain),
            246u8 => Some(OpCode::MetaBcWrite),
            247u8 => Some(OpCode::MetaBcFuncBegin),
            248u8 => Some(OpCode::MetaBcFuncEnd),
            249u8 => Some(OpCode::MetaBcEmitHalt),
            250u8 => Some(OpCode::MetaBcLabel),
            251u8 => Some(OpCode::MetaBcJump),
            252u8 => Some(OpCode::MetaBcJumpIfFalse),
            253u8 => Some(OpCode::Halt),
            _ => None,
        }
    }

    /// The name of this operation in disassembly listings.
    pub open spec fn spec_mnemonic(self) -> Seq<char> {
        match self {
            OpCode::ConstInt => "const_int"@,
            OpCode::ConstBool => "const_bool"@,
            OpCode::ConstStr => "const_str"@,
            OpCode::Load => "load"@,
            OpCode::Store => "store"@,
            OpCode::Add => "add"@,
            OpCode::Sub => "sub"@,
            OpCode::Mul => "mul"@,
            OpCode::Div => "div"@,
            OpCode::Eq => "eq"@,
            OpCode::Ne => "ne"@,
            OpCode::Lt => "lt"@,
            OpCode::Le => "le"@,
            OpCode::Gt => "gt"@,
            OpCode::Ge => "ge"@,
            OpCode::StrEq => "str_eq"@,
            OpCode::StrNe => "str_ne"@,
            OpCode::And => "and"@,
            OpCode::Or => "or"@,
            OpCode::Not => "not"@,
            OpCode::Neg => "neg"@,
            OpCode::Jump => "jump"@,
            OpCode::JumpIfFalse => "jump_if_false"@,
            OpCode::PrintLn => "print_ln"@,
            OpCode::ReadInt => "read_int"@,
            OpCode::ReadBool => "read_bool"@,
            OpCode::ReadStr => "read_str"@,
            OpCode::Call => "call"@,
            OpCode::Ret => "ret"@,
            OpCode::RetVal => "ret_val"@,
            OpCode::AllocArray => "alloc_array"@,
            OpCode::LoadIndex => "load_index"@,
            OpCode::StoreIndex => "store_index"@,
            OpCode::ReadFile => "read_file"@,
            OpCode::WriteFile => "write_file"@,
            OpCode::ArgCount => "arg_count"@,
            OpCode::Arg => "arg"@,
            OpCode::StrLen => "str_len"@,
            OpCode::StrConcat => "str_concat"@,
            OpCode::StrSubstr => "str_substr"@,
            OpCode::StrReplace => "str_replace"@,
            OpCode::VecNew => "vec_new"@,
            OpCode::VecLen => "vec_len"@,
            OpCode::VecGet => "vec_get"@,
            OpCode::VecSet => "vec_set"@,
            OpCode::VecPush => "vec_push"@,
            OpCode::VecRemove => "vec_remove"@,
            OpCode::VecLast => "vec_last"@,
            OpCode::VecPop => "vec_pop"@,
            OpCode::StackNew => "stack_new"@,
            OpCode::StackLen => "stack_len"@,
            OpCode::StackPush => "stack_push"@,
            OpCode::StackTop => "stack_top"@,
            OpCode::StackPop => "stack_pop"@,
            OpCode::MapNew => "map_new"@,
            OpCode::MapLen => "map_len"@,
            OpCode::MapSet => "map_set"@,
            OpCode::MapGet => "map_get"@,
            OpCode::MapHas => "map_has"@,
            OpCode::MapRemove => "map_remove"@,
            OpCode::SetNew => "set_new"@,
            OpCode::SetLen => "set_len"@,
            OpCode::SetAdd => "set_add"@,
            OpCode::SetHas => "set_has"@,
            OpCode::SetRemove => "set_remove"@,
            OpCode::OptSomeInt => "opt_some_int"@,
            OpCode::OptSomeBool => "opt_some_bool"@,
            OpCode::OptSomeStr => "opt_some_str"@,
            OpCode::OptNoneInt => "opt_none_int"@,
            OpCode::OptNoneBool => "opt_none_bool"@,
            OpCode::OptNoneStr => "opt_none_str"@,
            OpCode::OptIsSomeInt => "opt_is_some_int"@,
            OpCode::OptIsSomeBool => "opt_is_some_bool"@,
            OpCode::OptIsSomeStr => "opt_is_some_str"@,
            OpCode::OptUnwrapInt => "opt_unwrap_int"@,
            OpCode::OptUnwrapBool => "opt_unwrap_bool"@,
            OpCode::OptUnwrapStr => "opt_unwrap_str"@,
            OpCode::OptUnwrapOrInt => "opt_unwrap_or_int"@,
            OpCode::OptUnwrapOrBool => "opt_unwrap_or_bool"@,
            OpCode::OptUnwrapOrStr => "opt_unwrap_or_str"@,
            OpCode::ResOkInt => "res_ok_int"@,
            OpCode::ResOkBool => "res_ok_bool"@,
            OpCode::ResOkStr => "res_ok_str"@,
            OpCode::ResErrInt => "res_err_int"@,
            OpCode::ResErrBool => "res_err_bool"@,
            OpCode::ResErrStr => "res_err_str"@,
            OpCode::ResIsOkInt => "res_is_ok_int"@,
            OpCode::ResIsOkBool => "res_is_ok_bool"@,
            OpCode::ResIsOkStr => "res_is_ok_str"@,
            OpCode::ResUnwrapInt => "res_unwrap_int"@,
            OpCode::ResUnwrapBool => "res_unwrap_bool"@,
            OpCode::ResUnwrapStr => "res_unwrap_str"@,
            OpCode::ResUnwrapOrInt => "res_unwrap_or_int"@,
            OpCode::ResUnwrapOrBool => "res_unwrap_or_bool"@,
            OpCode::ResUnwrapOrStr => "res_unwrap_or_str"@,
            OpCode::ResUnwrapErrInt => "res_unwrap_err_int"@,
            OpCode::ResUnwrapErrBool => "res_unwrap_err_bool"@,
            OpCode::ResUnwrapErrStr => "res_unwrap_err_str"@,
            OpCode::StrClear => "str_clear"@,
            OpCode::VecClear => "vec_clear"@,
            OpCode::StackClear => "stack_clear"@,
            OpCode::MapClear => "map_clear"@,
            OpCode::SetClear => "set_clear"@,
            OpCode::EnvGet => "env_get"@,
            OpCode::EnvHas => "env_has"@,
            OpCode::Cwd => "cwd"@,
            OpCode::PathJoin => "path_join"@,
            OpCode::FsExists => "fs_exists"@,
            OpCode::FsListDir => "fs_list_dir"@,
            OpCode::NowTimestamp => "now_timestamp"@,
            OpCode::SleepMs => "sleep_ms"@,
            OpCode::LogStr => "log_str"@,
            OpCode::LogInt => "log_int"@,
            OpCode::LogBool => "log_bool"@,
            OpCode::BcNew => "bc_new"@,
            OpCode::BcMain => "bc_main"@,
            OpCode::BcEmitPrintStr => "bc_emit_print_str"@,
            OpCode::BcEmitHalt => "bc_emit_halt"@,
            OpCode::BcWrite => "bc_write"@,
            OpCode::BcEmitConstInt => "bc_emit_const_int"@,
            OpCode::BcEmitStore0 => "bc_emit_store0"@,
            OpCode::BcEmitLoad0 => "bc_emit_load0"@,
            OpCode::BcEmitPrintLn => "bc_emit_print_ln"@,
            OpCode::BcEmitConstBool => "bc_emit_const_bool"@,
            OpCode::BcLabel => "bc_label"@,
            OpCode::BcJump => "bc_jump"@,
            OpCode::BcJumpIfFalse => "bc_jump_if_false"@,
            OpCode::BcEmitConstStr => "bc_emit_const_str"@,
            OpCode::BcEmitLoad => "bc_emit_load"@,
            OpCode::BcEmitStore => "bc_emit_store"@,
            OpCode::BcEmitAdd => "bc_emit_add"@,
            OpCode::BcEmitSub => "bc_emit_sub"@,
            OpCode::BcEmitMul => "bc_emit_mul"@,
            OpCode::BcEmitDiv => "bc_emit_div"@,
            OpCode::BcEmitEq => "bc_emit_eq"@,
            OpCode::BcEmitNe => "bc_emit_ne"@,
            OpCode::BcEmitLt => "bc_emit_lt"@,
            OpCode::BcEmitLe => "bc_emit_le"@,
            OpCode::BcEmitGt => "bc_emit_gt"@,
            OpCode::BcEmitGe => "bc_emit_ge"@,
            OpCode::BcEmitAnd => "bc_emit_and"@,
            OpCode::BcEmitOr => "bc_emit_or"@,
            OpCode::BcEmitNot => "bc_emit_not"@,
            OpCode::BcEmitNeg => "bc_emit_neg"@,
            OpCode::BcEmitStrLen => "bc_emit_str_len"@,
            OpCode::BcEmitStrConcat => "bc_emit_str_concat"@,
            OpCode::BcEmitStrSubstr => "bc_emit_str_substr"@,
            OpCode::BcEmitStrReplace => "bc_emit_str_replace"@,
            OpCode::BcEmitVecNew => "bc_emit_vec_new"@,
            OpCode::BcEmitVecLen => "bc_emit_vec_len"@,
            OpCode::BcEmitVecGet => "bc_emit_vec_get"@,
            OpCode::BcEmitVecSet => "bc_emit_vec_set"@,
            OpCode::BcEmitVecPush => "bc_emit_vec_push"@,
            OpCode::BcEmitVecRemove => "bc_emit_vec_remove"@,
            OpCode::BcEmitVecLast => "bc_emit_vec_last"@,
            OpCode::BcEmitVecPop => "bc_emit_vec_pop"@,
            OpCode::BcEmitMapNew => "bc_emit_map_new"@,
            OpCode::BcEmitMapLen => "bc_emit_map_len"@,
            OpCode::BcEmitMapSet => "bc_emit_map_set"@,
            OpCode::BcEmitMapGet => "bc_emit_map_get"@,
            OpCode::BcEmitMapHas => "bc_emit_map_has"@,
            OpCode::BcEmitMapRemove => "bc_emit_map_remove"@,
            OpCode::BcEmitReadFile => "bc_emit_read_file"@,
            OpCode::BcEmitWriteFile => "bc_emit_write_file"@,
            OpCode::BcEmitArgCount => "bc_emit_arg_count"@,
            OpCode::BcEmitArg => "bc_emit_arg"@,
            OpCode::BcEmitStrClear => "bc_emit_str_clear"@,
            OpCode::BcEmitVecClear => "bc_emit_vec_clear"@,
            OpCode::BcEmitMapClear => "bc_emit_map_clear"@,
            OpCode::BcFuncBegin => "bc_func_begin"@,
            OpCode::BcFuncEnd => "bc_func_end"@,
            OpCode::BcEmitCall => "bc_emit_call"@,
            OpCode::BcEmitRet => "bc_emit_ret"@,
            OpCode::BcEmitRetVal => "bc_emit_ret_val"@,
            OpCode::BcEmitEnvGet => "bc_emit_env_get"@,
            OpCode::BcEmitEnvHas => "bc_emit_env_has"@,
            OpCode::BcEmitCwd => "bc_emit_cwd"@,
            OpCode::BcEmitPathJoin => "bc_emit_path_join"@,
            OpCode::BcEmitFsExists => "bc_emit_fs_exists"@,
            OpCode::BcEmitFsListDir => "bc_emit_fs_list_dir"@,
            OpCode::BcEmitNowTimestamp => "bc_emit_now_timestamp"@,
            OpCode::BcEmitConstIntOp => "bc_emit_const_int_op"@,
            OpCode::BcEmitConstBoolOp => "bc_emit_const_bool_op"@,
            OpCode::BcEmitConstStrOp => "bc_emit_const_str_op"@,
            OpCode::BcEmitLoadOp => "bc_emit_load_op"@,
            OpCode::BcEmitStoreOp => "bc_emit_store_op"@,
            OpCode::BcEmitCallOp => "bc_emit_call_op"@,
            OpCode::BcNewOp => "bc_new_op"@,
            OpCode::BcWriteOp => "bc_write_op"@,
            OpCode::BcLabelOp => "bc_label_op"@,
            OpCode::BcJumpOp => "bc_jump_op"@,
            OpCode::BcJumpIfFalseOp => "bc_jump_if_false_op"@,
            OpCode::BcFuncBeginOp => "bc_func_begin_op"@,
            OpCode::BcMainOp => "bc_main_op"@,
            OpCode::BcFuncEndOp => "bc_func_end_op"@,
            OpCode::BcEmitHaltOp => "bc_emit_halt_op"@,
            OpCode::BcEmitRetOp => "bc_emit_ret_op"@,
            OpCode::BcEmitRetValOp => "bc_emit_ret_val_op"@,
            OpCode::BcEmitPrintLnOp => "bc_emit_print_ln_op"@,
            OpCode::BcEmitWriteFileOp => "bc_emit_write_file_op"@,
            OpCode::BcEmitAddOp => "bc_emit_add_op"@,
            OpCode::BcEmitSubOp => "bc_emit_sub_op"@,
            OpCode::BcEmitMulOp => "bc_emit_mul_op"@,
            OpCode::BcEmitDivOp => "bc_emit_div_op"@,
            OpCode::BcEmitEqOp => "bc_emit_eq_op"@,
            OpCode::BcEmitNeOp => "bc_emit_ne_op"@,
            OpCode::BcEmitLtOp => "bc_emit_lt_op"@,
            OpCode::BcEmitLeOp => "bc_emit_le_op"@,
            OpCode::BcEmitGtOp => "bc_emit_gt_op"@,
            OpCode::BcEmitGeOp => "bc_emit_ge_op"@,
            OpCode::BcEmitAndOp => "bc_emit_and_op"@,
            OpCode::BcEmitOrOp => "bc_emit_or_op"@,
            OpCode::BcEmitNotOp => "bc_emit_not_op"@,
            OpCode::BcEmitNegOp => "bc_emit_neg_op"@,
            OpCode::BcEmitStrLenOp => "bc_emit_str_len_op"@,
            OpCode::BcEmitStrConcatOp => "bc_emit_str_concat_op"@,
            OpCode::BcEmitStrSubstrOp => "bc_emit_str_substr_op"@,
            OpCode::BcEmitStrReplaceOp => "bc_emit_str_replace_op"@,
            OpCode::BcEmitVecNewOp => "bc_emit_vec_new_op"@,
            OpCode::BcEmitVecLenOp => "bc_emit_vec_len_op"@,
            OpCode::BcEmitVecGetOp => "bc_emit_vec_get_op"@,
            OpCode::BcEmitVecSetOp => "bc_emit_vec_set_op"@,
            OpCode::BcEmitVecPushOp => "bc_emit_vec_push_op"@,
            OpCode::BcEmitVecRemoveOp => "bc_emit_vec_remove_op"@,
            OpCode::BcEmitVecLastOp => "bc_emit_vec_last_op"@,
            OpCode::BcEmitVecPopOp => "bc_emit_vec_pop_op"@,
            OpCode::BcEmitVecClearOp => "bc_emit_vec_clear_op"@,
            OpCode::BcEmitMapNewOp => "bc_emit_map_new_op"@,
            OpCode::BcEmitMapLenOp => "bc_emit_map_len_op"@,
            OpCode::BcEmitMapSetOp => "bc_emit_map_set_op"@,
            OpCode::BcEmitMapGetOp => "bc_emit_map_get_op"@,
            OpCode::BcEmitMapHasOp => "bc_emit_map_has_op"@,
            OpCode::BcEmitMapRemoveOp => "bc_emit_map_remove_op"@,
            OpCode::BcEmitMapClearOp => "bc_emit_map_clear_op"@,
            OpCode::BcEmitReadFileOp => "bc_emit_read_file_op"@,
            OpCode::BcEmitArgCountOp => "bc_emit_arg_count_op"@,
            OpCode::BcEmitArgOp => "bc_emit_arg_op"@,
            OpCode::BcEmitEnvGetOp => "bc_emit_env_get_op"@,
            OpCode::BcEmitEnvHasOp => "bc_emit_env_has_op"@,
            OpCode::BcEmitCwdOp => "bc_emit_cwd_op"@,
            OpCode::BcEmitPathJoinOp => "bc_emit_path_join_op"@,
            OpCode::BcEmitFsExistsOp => "bc_emit_fs_exists_op"@,
            OpCode::BcEmitFsListDirOp => "bc_emit_fs_list_dir_op"@,
            OpCode::BcEmitNowTimestampOp => "bc_emit_now_timestamp_op"@,
            OpCode::MetaBcNew => "meta_bc_new"@,
            OpCode::MetaBcMain => "meta_bc_main"@,
            OpCode::MetaBcWrite => "meta_bc_write"@,
            OpCode::MetaBcFuncBegin => "meta_bc_func_begin"@,
            OpCode::MetaBcFuncEnd => "meta_bc_func_end"@,
            OpCode::MetaBcEmitHalt => "meta_bc_emit_halt"@,
            OpCode::MetaBcLabel => "meta_bc_label"@,
            OpCode::MetaBcJump => "meta_bc_jump"@,
            OpCode::MetaBcJumpIfFalse => "meta_bc_jump_if_false"@,
            OpCode::Halt => "halt"@,
        }
    }

    /// The name of this operation in disassembly listings.
    pub fn mnemonic(self) -> (s: &'static str)
        ensures
            s@ == self.spec_mnemonic(),
    {
        match self {
            OpCode::ConstInt => "const_int",
            OpCode::ConstBool => "const_bool",
            OpCode::ConstStr => "const_str",
            OpCode::Load => "load",
            OpCode::Store => "store",
            OpCode::Add => "add",
            OpCode::Sub => "sub",
            OpCode::Mul => "mul",
            OpCode::Div => "div",
            OpCode::Eq => "eq",
            OpCode::Ne => "ne",
            OpCode::Lt => "lt",
            OpCode::Le => "le",
            OpCode::Gt => "gt",
            OpCode::Ge => "ge",
            OpCode::StrEq => "str_eq",
            OpCode::StrNe => "str_ne",
            OpCode::And => "and",
            OpCode::Or => "or",
            OpCode::Not => "not",
            OpCode::Neg => "neg",
            OpCode::Jump => "jump",
            OpCode::JumpIfFalse => "jump_if_false",
            OpCode::PrintLn => "print_ln",
            OpCode::ReadInt => "read_int",
            OpCode::ReadBool => "read_bool",
            OpCode::ReadStr => "read_str",
            OpCode::Call => "call",
            OpCode::Ret => "ret",
            OpCode::RetVal => "ret_val",
            OpCode::AllocArray => "alloc_array",
            OpCode::LoadIndex => "load_index",
            OpCode::StoreIndex => "store_index",
            OpCode::ReadFile => "read_file",
            OpCode::WriteFile => "write_file",
            OpCode::ArgCount => "arg_count",
            OpCode::Arg => "arg",
            OpCode::StrLen => "str_len",
            OpCode::StrConcat => "str_concat",
            OpCode::StrSubstr => "str_substr",
            OpCode::StrReplace => "str_replace",
            OpCode::VecNew => "vec_new",
            OpCode::VecLen => "vec_len",
            OpCode::VecGet => "vec_get",
            OpCode::VecSet => "vec_set",
            OpCode::VecPush => "vec_push",
            OpCode::VecRemove => "vec_remove",
            OpCode::VecLast => "vec_last",
            OpCode::VecPop => "vec_pop",
            OpCode::StackNew => "stack_new",
            OpCode::StackLen => "stack_len",
            OpCode::StackPush => "stack_push",
            OpCode::StackTop => "stack_top",
            OpCode::StackPop => "stack_pop",
            OpCode::MapNew => "map_new",
            OpCode::MapLen => "map_len",
            OpCode::MapSet => "map_set",
            OpCode::MapGet => "map_get",
            OpCode::MapHas => "map_has",
            OpCode::MapRemove => "map_remove",
            OpCode::SetNew => "set_new",
            OpCode::SetLen => "set_len",
            OpCode::SetAdd => "set_add",
            OpCode::SetHas => "set_has",
            OpCode::SetRemove => "set_remove",
            OpCode::OptSomeInt => "opt_some_int",
            OpCode::OptSomeBool => "opt_some_bool",
            OpCode::OptSomeStr => "opt_some_str",
            OpCode::OptNoneInt => "opt_none_int",
            OpCode::OptNoneBool => "opt_none_bool",
            OpCode::OptNoneStr => "opt_none_str",
            OpCode::OptIsSomeInt => "opt_is_some_int",
            OpCode::OptIsSomeBool => "opt_is_some_bool",
            OpCode::OptIsSomeStr => "opt_is_some_str",
            OpCode::OptUnwrapInt => "opt_unwrap_int",
            OpCode::OptUnwrapBool => "opt_unwrap_bool",
            OpCode::OptUnwrapStr => "opt_unwrap_str",
            OpCode::OptUnwrapOrInt => "opt_unwrap_or_int",
            OpCode::OptUnwrapOrBool => "opt_unwrap_or_bool",
            OpCode::OptUnwrapOrStr => "opt_unwrap_or_str",
            OpCode::ResOkInt => "res_ok_int",
            OpCode::ResOkBool => "res_ok_bool",
            OpCode::ResOkStr => "res_ok_str",
            OpCode::ResErrInt => "res_err_int",
            OpCode::ResErrBool => "res_err_bool",
            OpCode::ResErrStr => "res_err_str",
            OpCode::ResIsOkInt => "res_is_ok_int",
            OpCode::ResIsOkBool => "res_is_ok_bool",
            OpCode::ResIsOkStr => "res_is_ok_str",
            OpCode::ResUnwrapInt => "res_unwrap_int",
            OpCode::ResUnwrapBool => "res_unwrap_bool",
            OpCode::ResUnwrapStr => "res_unwrap_str",
            OpCode::ResUnwrapOrInt => "res_unwrap_or_int",
            OpCode::ResUnwrapOrBool => "res_unwrap_or_bool",
            OpCode::ResUnwrapOrStr => "res_unwrap_or_str",
            OpCode::ResUnwrapErrInt => "res_unwrap_err_int",
            OpCode::ResUnwrapErrBool => "res_unwrap_err_bool",
            OpCode::ResUnwrapErrStr => "res_unwrap_err_str",
            OpCode::StrClear => "str_clear",
            OpCode::VecClear => "vec_clear",
            OpCode::StackClear => "stack_clear",
            OpCode::MapClear => "map_clear",
            OpCode::SetClear => "set_clear",
            OpCode::EnvGet => "env_get",
            OpCode::EnvHas => "env_has",
            OpCode::Cwd => "cwd",
            OpCode::PathJoin => "path_join",
            OpCode::FsExists => "fs_exists",
            OpCode::FsListDir => "fs_list_dir",
            OpCode::NowTimestamp => "now_timestamp",
            OpCode::SleepMs => "sleep_ms",
            OpCode::LogStr => "log_str",
            OpCode::LogInt => "log_int",
            OpCode::LogBool => "log_bool",
            OpCode::BcNew => "bc_new",
            OpCode::BcMain => "bc_main",
            OpCode::BcEmitPrintStr => "bc_emit_print_str",
            OpCode::BcEmitHalt => "bc_emit_halt",
            OpCode::BcWrite => "bc_write",
            OpCode::BcEmitConstInt => "bc_emit_const_int",
            OpCode::BcEmitStore0 => "bc_emit_store0",
            OpCode::BcEmitLoad0 => "bc_emit_load0",
            OpCode::BcEmitPrintLn => "bc_emit_print_ln",
            OpCode::BcEmitConstBool => "bc_emit_const_bool",
            OpCode::BcLabel => "bc_label",
            OpCode::BcJump => "bc_jump",
            OpCode::BcJumpIfFalse => "bc_jump_if_false",
            OpCode::BcEmitConstStr => "bc_emit_const_str",
            OpCode::BcEmitLoad => "bc_emit_load",
            OpCode::BcEmitStore => "bc_emit_store",
            OpCode::BcEmitAdd => "bc_emit_add",
            OpCode::BcEmitSub => "bc_emit_sub",
            OpCode::BcEmitMul => "bc_emit_mul",
            OpCode::BcEmitDiv => "bc_emit_div",
            OpCode::BcEmitEq => "bc_emit_eq",
            OpCode::BcEmitNe => "bc_emit_ne",
            OpCode::BcEmitLt => "bc_emit_lt",
            OpCode::BcEmitLe => "bc_emit_le",
            OpCode::BcEmitGt => "bc_emit_gt",
            OpCode::BcEmitGe => "bc_emit_ge",
            OpCode::BcEmitAnd => "bc_emit_and",
            OpCode::BcEmitOr => "bc_emit_or",
            OpCode::BcEmitNot => "bc_emit_not",
            OpCode::BcEmitNeg => "bc_emit_neg",
            OpCode::BcEmitStrLen => "bc_emit_str_len",
            OpCode::BcEmitStrConcat => "bc_emit_str_concat",
            OpCode::BcEmitStrSubstr => "bc_emit_str_substr",
            OpCode::BcEmitStrReplace => "bc_emit_str_replace",
            OpCode::BcEmitVecNew => "bc_emit_vec_new",
            OpCode::BcEmitVecLen => "bc_emit_vec_len",
            OpCode::BcEmitVecGet => "bc_emit_vec_get",
            OpCode::BcEmitVecSet => "bc_emit_vec_set",
            OpCode::BcEmitVecPush => "bc_emit_vec_push",
            OpCode::BcEmitVecRemove => "bc_emit_vec_remove",
            OpCode::BcEmitVecLast => "bc_emit_vec_last",
            OpCode::BcEmitVecPop => "bc_emit_vec_pop",
            OpCode::BcEmitMapNew => "bc_emit_map_new",
            OpCode::BcEmitMapLen => "bc_emit_map_len",
            OpCode::BcEmitMapSet => "bc_emit_map_set",
            OpCode::BcEmitMapGet => "bc_emit_map_get",
            OpCode::BcEmitMapHas => "bc_emit_map_has",
            OpCode::BcEmitMapRemove => "bc_emit_map_remove",
            OpCode::BcEmitReadFile => "bc_emit_read_file",
            OpCode::BcEmitWriteFile => "bc_emit_write_file",
            OpCode::BcEmitArgCount => "bc_emit_arg_count",
            OpCode::BcEmitArg => "bc_emit_arg",
            OpCode::BcEmitStrClear => "bc_emit_str_clear",
            OpCode::BcEmitVecClear => "bc_emit_vec_clear",
            OpCode::BcEmitMapClear => "bc_emit_map_clear",
            OpCode::BcFuncBegin => "bc_func_begin",
            OpCode::BcFuncEnd => "bc_func_end",
            OpCode::BcEmitCall => "bc_emit_call",
            OpCode::BcEmitRet => "bc_emit_ret",
            OpCode::BcEmitRetVal => "bc_emit_ret_val",
            OpCode::BcEmitEnvGet => "bc_emit_env_get",
            OpCode::BcEmitEnvHas => "bc_emit_env_has",
            OpCode::BcEmitCwd => "bc_emit_cwd",
            OpCode::BcEmitPathJoin => "bc_emit_path_join",
            OpCode::BcEmitFsExists => "bc_emit_fs_exists",
            OpCode::BcEmitFsListDir => "bc_emit_fs_list_dir",
            OpCode::BcEmitNowTimestamp => "bc_emit_now_timestamp",
            OpCode::BcEmitConstIntOp => "bc_emit_const_int_op",
            OpCode::BcEmitConstBoolOp => "bc_emit_const_bool_op",
            OpCode::BcEmitConstStrOp => "bc_emit_const_str_op",
            OpCode::BcEmitLoadOp => "bc_emit_load_op",
            OpCode::BcEmitStoreOp => "bc_emit_store_op",
            OpCode::BcEmitCallOp => "bc_emit_call_op",
            OpCode::BcNewOp => "bc_new_op",
            OpCode::BcWriteOp => "bc_write_op",
            OpCode::BcLabelOp => "bc_label_op",
            OpCode::BcJumpOp => "bc_jump_op",
            OpCode::BcJumpIfFalseOp => "bc_jump_if_false_op",
            OpCode::BcFuncBeginOp => "bc_func_begin_op",
            OpCode::BcMainOp => "bc_main_op",
            OpCode::BcFuncEndOp => "bc_func_end_op",
            OpCode::BcEmitHaltOp => "bc_emit_halt_op",
            OpCode::BcEmitRetOp => "bc_emit_ret_op",
            OpCode::BcEmitRetValOp => "bc_emit_ret_val_op",
            OpCode::BcEmitPrintLnOp => "bc_emit_print_ln_op",
            OpCode::BcEmitWriteFileOp => "bc_emit_write_file_op",
            OpCode::BcEmitAddOp => "bc_emit_add_op",
            OpCode::BcEmitSubOp => "bc_emit_sub_op",
            OpCode::BcEmitMulOp => "bc_emit_mul_op",
            OpCode::BcEmitDivOp => "bc_emit_div_op",
            OpCode::BcEmitEqOp => "bc_emit_eq_op",
            OpCode::BcEmitNeOp => "bc_emit_ne_op",
            OpCode::BcEmitLtOp => "bc_emit_lt_op",
            OpCode::BcEmitLeOp => "bc_emit_le_op",
            OpCode::BcEmitGtOp => "bc_emit_gt_op",
            OpCode::BcEmitGeOp => "bc_emit_ge_op",
            OpCode::BcEmitAndOp => "bc_emit_and_op",
            OpCode::BcEmitOrOp => "bc_emit_or_op",
            OpCode::BcEmitNotOp => "bc_emit_not_op",
            OpCode::BcEmitNegOp => "bc_emit_neg_op",
            OpCode::BcEmitStrLenOp => "bc_emit_str_len_op",
            OpCode::BcEmitStrConcatOp => "bc_emit_str_concat_op",
            OpCode::BcEmitStrSubstrOp => "bc_emit_str_substr_op",
            OpCode::BcEmitStrReplaceOp => "bc_emit_str_replace_op",
            OpCode::BcEmitVecNewOp => "bc_emit_vec_new_op",
            OpCode::BcEmitVecLenOp => "bc_emit_vec_len_op",
            OpCode::BcEmitVecGetOp => "bc_emit_vec_get_op",
            OpCode::BcEmitVecSetOp => "bc_emit_vec_set_op",
            OpCode::BcEmitVecPushOp => "bc_emit_vec_push_op",
            OpCode::BcEmitVecRemoveOp => "bc_emit_vec_remove_op",
            OpCode::BcEmitVecLastOp => "bc_emit_vec_last_op",
            OpCode::BcEmitVecPopOp => "bc_emit_vec_pop_op",
            OpCode::BcEmitVecClearOp => "bc_emit_vec_clear_op",
            OpCode::BcEmitMapNewOp => "bc_emit_map_new_op",
            OpCode::BcEmitMapLenOp => "bc_emit_map_len_op",
            OpCode::BcEmitMapSetOp => "bc_emit_map_set_op",
            OpCode::BcEmitMapGetOp => "bc_emit_map_get_op",
            OpCode::BcEmitMapHasOp => "bc_emit_map_has_op",
            OpCode::BcEmitMapRemoveOp => "bc_emit_map_remove_op",
            OpCode::BcEmitMapClearOp => "bc_emit_map_clear_op",
            OpCode::BcEmitReadFileOp => "bc_emit_read_file_op",
            OpCode::BcEmitArgCountOp => "bc_emit_arg_count_op",
            OpCode::BcEmitArgOp => "bc_emit_arg_op",
            OpCode::BcEmitEnvGetOp => "bc_emit_env_get_op",
            OpCode::BcEmitEnvHasOp => "bc_emit_env_has_op",
            OpCode::BcEmitCwdOp => "bc_emit_cwd_op",
            OpCode::BcEmitPathJoinOp => "bc_emit_path_join_op",
            OpCode::BcEmitFsExistsOp => "bc_emit_fs_exists_op",
            OpCode::BcEmitFsListDirOp => "bc_emit_fs_list_dir_op",
            OpCode::BcEmitNowTimestampOp => "bc_emit_now_timestamp_op",
            OpCode::MetaBcNew => "meta_bc_new",
            OpCode::MetaBcMain => "meta_bc_main",
            OpCode::MetaBcWrite => "meta_bc_write",
            OpCode::MetaBcFuncBegin => "meta_bc_func_begin",
            OpCode::MetaBcFuncEnd => "meta_bc_func_end",
            OpCode::MetaBcEmitHalt => "meta_bc_emit_halt",
            OpCode::MetaBcLabel => "meta_bc_label",
            OpCode::MetaBcJump => "meta_bc_jump",
            OpCode::MetaBcJumpIfFalse => "meta_bc_jump_if_false",
            OpCode::Halt => "halt",
        }
    }

    /// Whether an instruction of this operation carries an operand.
    pub open spec fn spec_has_operand(self) -> bool {
        self == OpCode::ConstInt || self == OpCode::ConstBool || self == OpCode::ConstStr || self == OpCode::Load || self == OpCode::Store || self == OpCode::Jump || self == OpCode::JumpIfFalse || self == OpCode::ReadInt || self == OpCode::ReadBool || self == OpCode::ReadStr || self == OpCode::Call || self == OpCode::AllocArray
    }

    /// Whether an instruction of this operation carries an operand.
    #[verifier::when_used_as_spec(spec_has_operand)]
    pub fn has_operand(self) -> (b: bool)
        ensures
            b == self.spec_has_operand(),
    {
        match self {
            OpCode::ConstInt => true,
            OpCode::ConstBool => true,
            OpCode::ConstStr => true,
            OpCode::Load => true,
            OpCode::Store => true,
            OpCode::Jump => true,
            OpCode::JumpIfFalse => true,
            OpCode::ReadInt => true,
            OpCode::ReadBool => true,
            OpCode::ReadStr => true,
            OpCode::Call => true,
            OpCode::AllocArray => true,
            _ => false,
        }
    }

}

/// The mathematical content of an instruction: its operation and its operand,
/// with the operand fields that the operation does not use left at zero, false
/// or empty.
pub type InstrModel = (OpCode, i64, bool, Seq<char>, u32);

/// The model of an instruction that carries no operand.
pub open spec fn plain_model(op: OpCode) -> InstrModel {
    (op, 0i64, false, Seq::<char>::empty(), 0u32)
}

/// One instruction of the stack machine.
#[derive(Debug, Clone)]
pub enum Instr {
    ConstInt(i64),
    ConstBool(bool),
    ConstStr(String),
    Load(u32),
    Store(u32),
    Add,
    Sub,
    Mul,
    Div,
    Eq,
    Ne,
    Lt,
    Le,
    Gt,
    Ge,
    StrEq,
    StrNe,
    And,
    Or,
    Not,
    Neg,
    Jump(u32),
    JumpIfFalse(u32),
    PrintLn,
    ReadInt(u32),
    ReadBool(u32),
    ReadStr(u32),
    Call(u32),
    Ret,
    RetVal,
    AllocArray(u32),
    LoadIndex,
    StoreIndex,
    ReadFile,
    WriteFile,
    ArgCount,
    Arg,
    StrLen,
    StrConcat,
    StrSubstr,
    StrReplace,
    VecNew,
    VecLen,
    VecGet,
    VecSet,
    VecPush,
    VecRemove,
    VecLast,
    VecPop,
    StackNew,
    StackLen,
    StackPush,
    StackTop,
    StackPop,
    MapNew,
    MapLen,
    MapSet,
    MapGet,
    MapHas,
    MapRemove,
    SetNew,
    SetLen,
    SetAdd,
    SetHas,
    SetRemove,
    OptSomeInt,
    OptSomeBool,
    OptSomeStr,
    OptNoneInt,
    OptNoneBool,
    OptNoneStr,
    OptIsSomeInt,
    OptIsSomeBool,
    OptIsSomeStr,
    OptUnwrapInt,
    OptUnwrapBool,
    OptUnwrapStr,
    OptUnwrapOrInt,
    OptUnwrapOrBool,
    OptUnwrapOrStr,
    ResOkInt,
    ResOkBool,
    ResOkStr,
    ResErrInt,
    ResErrBool,
    ResErrStr,
    ResIsOkInt,
    ResIsOkBool,
    ResIsOkStr,
    ResUnwrapInt,
    ResUnwrapBool,
    ResUnwrapStr,
    ResUnwrapOrInt,
    ResUnwrapOrBool,
    ResUnwrapOrStr,
    ResUnwrapErrInt,
    ResUnwrapErrBool,
    ResUnwrapErrStr,
    StrClear,
    VecClear,
    StackClear,
    MapClear,
    SetClear,
    EnvGet,
    EnvHas,
    Cwd,
    PathJoin,
    FsExists,
    FsListDir,
    NowTimestamp,
    SleepMs,
    LogStr,
    LogInt,
    LogBool,
    BcNew,
    BcMain,
    BcEmitPrintStr,
    BcEmitHalt,
    BcWrite,
    BcEmitConstInt,
    BcEmitStore0,
    BcEmitLoad0,
    BcEmitPrintLn,
    BcEmitConstBool,
    BcLabel,
    BcJump,
    BcJumpIfFalse,
    BcEmitConstStr,
    BcEmitLoad,
    BcEmitStore,
    BcEmitAdd,
    BcEmitSub,
    BcEmitMul,
    BcEmitDiv,
    BcEmitEq,
    BcEmitNe,
    BcEmitLt,
    BcEmitLe,
    BcEmitGt,
    BcEmitGe,
    BcEmitAnd,
    BcEmitOr,
    BcEmitNot,
    BcEmitNeg,
    BcEmitStrLen,
    BcEmitStrConcat,
    BcEmitStrSubstr,
    BcEmitStrReplace,
    BcEmitVecNew,
    BcEmitVecLen,
    BcEmitVecGet,
    BcEmitVecSet,
    BcEmitVecPush,
    BcEmitVecRemove,
    BcEmitVecLast,
    BcEmitVecPop,
    BcEmitMapNew,
    BcEmitMapLen,
    BcEmitMapSet,
    BcEmitMapGet,
    BcEmitMapHas,
    BcEmitMapRemove,
    BcEmitReadFile,
    BcEmitWriteFile,
    BcEmitArgCount,
    BcEmitArg,
    BcEmitStrClear,
    BcEmitVecClear,
    BcEmitMapClear,
    BcFuncBegin,
    BcFuncEnd,
    BcEmitCall,
    BcEmitRet,
    BcEmitRetVal,
    BcEmitEnvGet,
    BcEmitEnvHas,
    BcEmitCwd,
    BcEmitPathJoin,
    BcEmitFsExists,
    BcEmitFsListDir,
    BcEmitNowTimestamp,
    BcEmitConstIntOp,
    BcEmitConstBoolOp,
    BcEmitConstStrOp,
    BcEmitLoadOp,
    BcEmitStoreOp,
    BcEmitCallOp,
    BcNewOp,
    BcWriteOp,
    BcLabelOp,
    BcJumpOp,
    BcJumpIfFalseOp,
    BcFuncBeginOp,
    BcMainOp,
    BcFuncEndOp,
    BcEmitHaltOp,
    BcEmitRetOp,
    BcEmitRetValOp,
    BcEmitPrintLnOp,
    BcEmitWriteFileOp,
    BcEmitAddOp,
    BcEmitSubOp,
    BcEmitMulOp,
    BcEmitDivOp,
    BcEmitEqOp,
    BcEmitNeOp,
    BcEmitLtOp,
    BcEmitLeOp,
    BcEmitGtOp,
    BcEmitGeOp,
    BcEmitAndOp,
    BcEmitOrOp,
    BcEmitNotOp,
    BcEmitNegOp,
    BcEmitStrLenOp,
    BcEmitStrConcatOp,
    BcEmitStrSubstrOp,
    BcEmitStrReplaceOp,
    BcEmitVecNewOp,
    BcEmitVecLenOp,
    BcEmitVecGetOp,
    BcEmitVecSetOp,
    BcEmitVecPushOp,
    BcEmitVecRemoveOp,
    BcEmitVecLastOp,
    BcEmitVecPopOp,
    BcEmitVecClearOp,
    BcEmitMapNewOp,
    BcEmitMapLenOp,
    BcEmitMapSetOp,
    BcEmitMapGetOp,
    BcEmitMapHasOp,
    BcEmitMapRemoveOp,
    BcEmitMapClearOp,
    BcEmitReadFileOp,
    BcEmitArgCountOp,
    BcEmitArgOp,
    BcEmitEnvGetOp,
    BcEmitEnvHasOp,
    BcEmitCwdOp,
    BcEmitPathJoinOp,
    BcEmitFsExistsOp,
    BcEmitFsListDirOp,
    BcEmitNowTimestampOp,
    MetaBcNew,
    MetaBcMain,
    MetaBcWrite,
    MetaBcFuncBegin,
    MetaBcFuncEnd,
    MetaBcEmitHalt,
    MetaBcLabel,
    MetaBcJump,
    MetaBcJumpIfFalse,
    Halt,
}

impl Instr {
    /// The operation of this instruction.
    pub open spec fn spec_opcode(&self) -> OpCode {
        match self {
            Instr::ConstInt(..) => OpCode::ConstInt,
            Instr::ConstBool(..) => OpCode::ConstBool,
            Instr::ConstStr(..) => OpCode::ConstStr,
            Instr::Load(..) => OpCode::Load,
            Instr::Store(..) => OpCode::Store,
            Instr::Add => OpCode::Add,
            Instr::Sub => OpCode::Sub,
            Instr::Mul => OpCode::Mul,
            Instr::Div => OpCode::Div,
            Instr::Eq => OpCode::Eq,
            Instr::Ne => OpCode::Ne,
            Instr::Lt => OpCode::Lt,
            Instr::Le => OpCode::Le,
            Instr::Gt => OpCode::Gt,
            Instr::Ge => OpCode::Ge,
            Instr::StrEq => OpCode::StrEq,
            Instr::StrNe => OpCode::StrNe,
            Instr::And => OpCode::And,
            Instr::Or => OpCode::Or,
            Instr::Not => OpCode::Not,
            Instr::Neg => OpCode::Neg,
            Instr::Jump(..) => OpCode::Jump,
            Instr::JumpIfFalse(..) => OpCode::JumpIfFalse,
            Instr::PrintLn => OpCode::PrintLn,
            Instr::ReadInt(..) => OpCode::ReadInt,
            Instr::ReadBool(..) => OpCode::ReadBool,
            Instr::ReadStr(..) => OpCode::ReadStr,
            Instr::Call(..) => OpCode::Call,
            Instr::Ret => OpCode::Ret,
            Instr::RetVal => OpCode::RetVal,
            Instr::AllocArray(..) => OpCode::AllocArray,
            Instr::LoadIndex => OpCode::LoadIndex,
            Instr::StoreIndex => OpCode::StoreIndex,
            Instr::ReadFile => OpCode::ReadFile,
            Instr::WriteFile => OpCode::WriteFile,
            Instr::ArgCount => OpCode::ArgCount,
            Instr::Arg => OpCode::Arg,
            Instr::StrLen => OpCode::StrLen,
            Instr::StrConcat => OpCode::StrConcat,
            Instr::StrSubstr => OpCode::StrSubstr,
            Instr::StrReplace => OpCode::StrReplace,
            Instr::VecNew => OpCode::VecNew,
            Instr::VecLen => OpCode::VecLen,
            Instr::VecGet => OpCode::VecGet,
            Instr::VecSet => OpCode::VecSet,
            Instr::VecPush => OpCode::VecPush,
            Instr::VecRemove => OpCode::VecRemove,
            Instr::VecLast => OpCode::VecLast,
            Instr::VecPop => OpCode::VecPop,
            Instr::StackNew => OpCode::StackNew,
            Instr::StackLen => OpCode::StackLen,
            Instr::StackPush => OpCode::StackPush,
            Instr::StackTop => OpCode::StackTop,
            Instr::StackPop => OpCode::StackPop,
            Instr::MapNew => OpCode::MapNew,
            Instr::MapLen => OpCode::MapLen,
            Instr::MapSet => OpCode::MapSet,
            Instr::MapGet => OpCode::MapGet,
            Instr::MapHas => OpCode::MapHas,
            Instr::MapRemove => OpCode::MapRemove,
            Instr::SetNew => OpCode::SetNew,
            Instr::SetLen => OpCode::SetLen,
            Instr::SetAdd => OpCode::SetAdd,
            Instr::SetHas => OpCode::SetHas,
            Instr::SetRemove => OpCode::SetRemove,
            Instr::OptSomeInt => OpCode::OptSomeInt,
            Instr::OptSomeBool => OpCode::OptSomeBool,
            Instr::OptSomeStr => OpCode::OptSomeStr,
            Instr::OptNoneInt => OpCode::OptNoneInt,
            Instr::OptNoneBool => OpCode::OptNoneBool,
            Instr::OptNoneStr => OpCode::OptNoneStr,
            Instr::OptIsSomeInt => OpCode::OptIsSomeInt,
            Instr::OptIsSomeBool => OpCode::OptIsSomeBool,
            Instr::OptIsSomeStr => OpCode::OptIsSomeStr,
            Instr::OptUnwrapInt => OpCode::OptUnwrapInt,
            Instr::OptUnwrapBool => OpCode::OptUnwrapBool,
            Instr::OptUnwrapStr => OpCode::OptUnwrapStr,
            Instr::OptUnwrapOrInt => OpCode::OptUnwrapOrInt,
            Instr::OptUnwrapOrBool => OpCode::OptUnwrapOrBool,
            Instr::OptUnwrapOrStr => OpCode::OptUnwrapOrStr,
            Instr::ResOkInt => OpCode::ResOkInt,
            Instr::ResOkBool => OpCode::ResOkBool,
            Instr::ResOkStr => OpCode::ResOkStr,
            Instr::ResErrInt => OpCode::ResErrInt,
            Instr::ResErrBool => OpCode::ResErrBool,
            Instr::ResErrStr => OpCode::ResErrStr,
            Instr::ResIsOkInt => OpCode::ResIsOkInt,
            Instr::ResIsOkBool => OpCode::ResIsOkBool,
            Instr::ResIsOkStr => OpCode::ResIsOkStr,
            Instr::ResUnwrapInt => OpCode::ResUnwrapInt,
            Instr::ResUnwrapBool => OpCode::ResUnwrapBool,
            Instr::ResUnwrapStr => OpCode::ResUnwrapStr,
            Instr::ResUnwrapOrInt => OpCode::ResUnwrapOrInt,
            Instr::ResUnwrapOrBool => OpCode::ResUnwrapOrBool,
            Instr::ResUnwrapOrStr => OpCode::ResUnwrapOrStr,
            Instr::ResUnwrapErrInt => OpCode::ResUnwrapErrInt,
            Instr::ResUnwrapErrBool => OpCode::ResUnwrapErrBool,
            Instr::ResUnwrapErrStr => OpCode::ResUnwrapErrStr,
            Instr::StrClear => OpCode::StrClear,
            Instr::VecClear => OpCode::VecClear,
            Instr::StackClear => OpCode::StackClear,
            Instr::MapClear => OpCode::MapClear,
            Instr::SetClear => OpCode::SetClear,
            Instr::EnvGet => OpCode::EnvGet,
            Instr::EnvHas => OpCode::EnvHas,
            Instr::Cwd => OpCode::Cwd,
            Instr::PathJoin => OpCode::PathJoin,
            Instr::FsExists => OpCode::FsExists,
            Instr::FsListDir => OpCode::FsListDir,
            Instr::NowTimestamp => OpCode::NowTimestamp,
            Instr::SleepMs => OpCode::SleepMs,
            Instr::LogStr => OpCode::LogStr,
            Instr::LogInt => OpCode::LogInt,
            Instr::LogBool => OpCode::LogBool,
            Instr::BcNew => OpCode::BcNew,
            Instr::BcMain => OpCode::BcMain,
            Instr::BcEmitPrintStr => OpCode::BcEmitPrintStr,
            Instr::BcEmitHalt => OpCode::BcEmitHalt,
            Instr::BcWrite => OpCode::BcWrite,
            Instr::BcEmitConstInt => OpCode::BcEmitConstInt,
            Instr::BcEmitStore0 => OpCode::BcEmitStore0,
            Instr::BcEmitLoad0 => OpCode::BcEmitLoad0,
            Instr::BcEmitPrintLn => OpCode::BcEmitPrintLn,
            Instr::BcEmitConstBool => OpCode::BcEmitConstBool,
            Instr::BcLabel => OpCode::BcLabel,
            Instr::BcJump => OpCode::BcJump,
            Instr::BcJumpIfFalse => OpCode::BcJumpIfFalse,
            Instr::BcEmitConstStr => OpCode::BcEmitConstStr,
            Instr::BcEmitLoad => OpCode::BcEmitLoad,
            Instr::BcEmitStore => OpCode::BcEmitStore,
            Instr::BcEmitAdd => OpCode::BcEmitAdd,
            Instr::BcEmitSub => OpCode::BcEmitSub,
            Instr::BcEmitMul => OpCode::BcEmitMul,
            Instr::BcEmitDiv => OpCode::BcEmitDiv,
            Instr::BcEmitEq => OpCode::BcEmitEq,
            Instr::BcEmitNe => OpCode::BcEmitNe,
            Instr::BcEmitLt => OpCode::BcEmitLt,
            Instr::BcEmitLe => OpCode::BcEmitLe,
            Instr::BcEmitGt => OpCode::BcEmitGt,
            Instr::BcEmitGe => OpCode::BcEmitGe,
            Instr::BcEmitAnd => OpCode::BcEmitAnd,
            Instr::BcEmitOr => OpCode::BcEmitOr,
            Instr::BcEmitNot => OpCode::BcEmitNot,
            Instr::BcEmitNeg => OpCode::BcEmitNeg,
            Instr::BcEmitStrLen => OpCode::BcEmitStrLen,
            Instr::BcEmitStrConcat => OpCode::BcEmitStrConcat,
            Instr::BcEmitStrSubstr => OpCode::BcEmitStrSubstr,
            Instr::BcEmitStrReplace => OpCode::BcEmitStrReplace,
            Instr::BcEmitVecNew => OpCode::BcEmitVecNew,
            Instr::BcEmitVecLen => OpCode::BcEmitVecLen,
            Instr::BcEmitVecGet => OpCode::BcEmitVecGet,
            Instr::BcEmitVecSet => OpCode::BcEmitVecSet,
            Instr::BcEmitVecPush => OpCode::BcEmitVecPush,
            Instr::BcEmitVecRemove => OpCode::BcEmitVecRemove,
            Instr::BcEmitVecLast => OpCode::BcEmitVecLast,
            Instr::BcEmitVecPop => OpCode::BcEmitVecPop,
            Instr::BcEmitMapNew => OpCode::BcEmitMapNew,
            Instr::BcEmitMapLen => OpCode::BcEmitMapLen,
            Instr::BcEmitMapSet => OpCode::BcEmitMapSet,
            Instr::BcEmitMapGet => OpCode::BcEmitMapGet,
            Instr::BcEmitMapHas => OpCode::BcEmitMapHas,
            Instr::BcEmitMapRemove => OpCode::BcEmitMapRemove,
            Instr::BcEmitReadFile => OpCode::BcEmitReadFile,
            Instr::BcEmitWriteFile => OpCode::BcEmitWriteFile,
            Instr::BcEmitArgCount => OpCode::BcEmitArgCount,
            Instr::BcEmitArg => OpCode::BcEmitArg,
            Instr::BcEmitStrClear => OpCode::BcEmitStrClear,
            Instr::BcEmitVecClear => OpCode::BcEmitVecClear,
            Instr::BcEmitMapClear => OpCode::BcEmitMapClear,
            Instr::BcFuncBegin => OpCode::BcFuncBegin,
            Instr::BcFuncEnd => OpCode::BcFuncEnd,
            Instr::BcEmitCall => OpCode::BcEmitCall,
            Instr::BcEmitRet => OpCode::BcEmitRet,
            Instr::BcEmitRetVal => OpCode::BcEmitRetVal,
            Instr::BcEmitEnvGet => OpCode::BcEmitEnvGet,
            Instr::BcEmitEnvHas => OpCode::BcEmitEnvHas,
            Instr::BcEmitCwd => OpCode::BcEmitCwd,
            Instr::BcEmitPathJoin => OpCode::BcEmitPathJoin,
            Instr::BcEmitFsExists => OpCode::BcEmitFsExists,
            Instr::BcEmitFsListDir => OpCode::BcEmitFsListDir,
            Instr::BcEmitNowTimestamp => OpCode::BcEmitNowTimestamp,
            Instr::BcEmitConstIntOp => OpCode::BcEmitConstIntOp,
            Instr::BcEmitConstBoolOp => OpCode::BcEmitConstBoolOp,
            Instr::BcEmitConstStrOp => OpCode::BcEmitConstStrOp,
            Instr::BcEmitLoadOp => OpCode::BcEmitLoadOp,
            Instr::BcEmitStoreOp => OpCode::BcEmitStoreOp,
            Instr::BcEmitCallOp => OpCode::BcEmitCallOp,
            Instr::BcNewOp => OpCode::BcNewOp,
            Instr::BcWriteOp => OpCode::BcWriteOp,
            Instr::BcLabelOp => OpCode::BcLabelOp,
            Instr::BcJumpOp => OpCode::BcJumpOp,
            Instr::BcJumpIfFalseOp => OpCode::BcJumpIfFalseOp,
            Instr::BcFuncBeginOp => OpCode::BcFuncBeginOp,
            Instr::BcMainOp => OpCode::BcMainOp,
            Instr::BcFuncEndOp => OpCode::BcFuncEndOp,
            Instr::BcEmitHaltOp => OpCode::BcEmitHaltOp,
            Instr::BcEmitRetOp => OpCode::BcEmitRetOp,
            Instr::BcEmitRetValOp => OpCode::BcEmitRetValOp,
            Instr::BcEmitPrintLnOp => OpCode::BcEmitPrintLnOp,
            Instr::BcEmitWriteFileOp => OpCode::BcEmitWriteFileOp,
            Instr::BcEmitAddOp => OpCode::BcEmitAddOp,
            Instr::BcEmitSubOp => OpCode::BcEmitSubOp,
            Instr::BcEmitMulOp => OpCode::BcEmitMulOp,
            Instr::BcEmitDivOp => OpCode::BcEmitDivOp,
            Instr::BcEmitEqOp => OpCode::BcEmitEqOp,
            Instr::BcEmitNeOp => OpCode::BcEmitNeOp,
            Instr::BcEmitLtOp => OpCode::BcEmitLtOp,
            Instr::BcEmitLeOp => OpCode::BcEmitLeOp,
            Instr::BcEmitGtOp => OpCode::BcEmitGtOp,
            Instr::BcEmitGeOp => OpCode::BcEmitGeOp,
            Instr::BcEmitAndOp => OpCode::BcEmitAndOp,
            Instr::BcEmitOrOp => OpCode::BcEmitOrOp,
            Instr::BcEmitNotOp => OpCode::BcEmitNotOp,
            Instr::BcEmitNegOp => OpCode::BcEmitNegOp,
            Instr::BcEmitStrLenOp => OpCode::BcEmitStrLenOp,
            Instr::BcEmitStrConcatOp => OpCode::BcEmitStrConcatOp,
            Instr::BcEmitStrSubstrOp => OpCode::BcEmitStrSubstrOp,
            Instr::BcEmitStrReplaceOp => OpCode::BcEmitStrReplaceOp,
            Instr::BcEmitVecNewOp => OpCode::BcEmitVecNewOp,
            Instr::BcEmitVecLenOp => OpCode::BcEmitVecLenOp,
            Instr::BcEmitVecGetOp => OpCode::BcEmitVecGetOp,
            Instr::BcEmitVecSetOp => OpCode::BcEmitVecSetOp,
            Instr::BcEmitVecPushOp => OpCode::BcEmitVecPushOp,
            Instr::BcEmitVecRemoveOp => OpCode::BcEmitVecRemoveOp,
            Instr::BcEmitVecLastOp => OpCode::BcEmitVecLastOp,
            Instr::BcEmitVecPopOp => OpCode::BcEmitVecPopOp,
            Instr::BcEmitVecClearOp => OpCode::BcEmitVecClearOp,
            Instr::BcEmitMapNewOp => OpCode::BcEmitMapNewOp,
            Instr::BcEmitMapLenOp => OpCode::BcEmitMapLenOp,
            Instr::BcEmitMapSetOp => OpCode::BcEmitMapSetOp,
            Instr::BcEmitMapGetOp => OpCode::BcEmitMapGetOp,
            Instr::BcEmitMapHasOp => OpCode::BcEmitMapHasOp,
            Instr::BcEmitMapRemoveOp => OpCode::BcEmitMapRemoveOp,
            Instr::BcEmitMapClearOp => OpCode::BcEmitMapClearOp,
            Instr::BcEmitReadFileOp => OpCode::BcEmitReadFileOp,
            Instr::BcEmitArgCountOp => OpCode::BcEmitArgCountOp,
            Instr::BcEmitArgOp => OpCode::BcEmitArgOp,
            Instr::BcEmitEnvGetOp => OpCode::BcEmitEnvGetOp,
            Instr::BcEmitEnvHasOp => OpCode::BcEmitEnvHasOp,
            Instr::BcEmitCwdOp => OpCode::BcEmitCwdOp,
            Instr::BcEmitPathJoinOp => OpCode::BcEmitPathJoinOp,
            Instr::BcEmitFsExistsOp => OpCode::BcEmitFsExistsOp,
            Instr::BcEmitFsListDirOp => OpCode::BcEmitFsListDirOp,
            Instr::BcEmitNowTimestampOp => OpCode::BcEmitNowTimestampOp,
            Instr::MetaBcNew => OpCode::MetaBcNew,
            Instr::MetaBcMain => OpCode::MetaBcMain,
            Instr::MetaBcWrite => OpCode::MetaBcWrite,
            Instr::MetaBcFuncBegin => OpCode::MetaBcFuncBegin,
            Instr::MetaBcFuncEnd => OpCode::MetaBcFuncEnd,
            Instr::MetaBcEmitHalt => OpCode::MetaBcEmitHalt,
            Instr::MetaBcLabel => OpCode::MetaBcLabel,
            Instr::MetaBcJump => OpCode::MetaBcJump,
            Instr::MetaBcJumpIfFalse => OpCode::MetaBcJumpIfFalse,
            Instr::Halt => OpCode::Halt,
        }
    }

    /// The operation of this instruction.
    #[verifier::when_used_as_spec(spec_opcode)]
    pub fn opcode(&self) -> (op: OpCode)
        ensures
            op == self.spec_opcode(),
    {
        match self {
            Instr::ConstInt(..) => OpCode::ConstInt,
            Instr::ConstBool(..) => OpCode::ConstBool,
            Instr::ConstStr(..) => OpCode::ConstStr,
            Instr::Load(..) => OpCode::Load,
            Instr::Store(..) => OpCode::Store,
            Instr::Add => OpCode::Add,
            Instr::Sub => OpCode::Sub,
            Instr::Mul => OpCode::Mul,
            Instr::Div => OpCode::Div,
            Instr::Eq => OpCode::Eq,
            Instr::Ne => OpCode::Ne,
            Instr::Lt => OpCode::Lt,
            Instr::Le => OpCode::Le,
            Instr::Gt => OpCode::Gt,
            Instr::Ge => OpCode::Ge,
            Instr::StrEq => OpCode::StrEq,
            Instr::StrNe => OpCode::StrNe,
            Instr::And => OpCode::And,
            Instr::Or => OpCode::Or,
            Instr::Not => OpCode::Not,
            Instr::Neg => OpCode::Neg,
            Instr::Jump(..) => OpCode::Jump,
            Instr::JumpIfFalse(..) => OpCode::JumpIfFalse,
            Instr::PrintLn => OpCode::PrintLn,
            Instr::ReadInt(..) => OpCode::ReadInt,
            Instr::ReadBool(..) => OpCode::ReadBool,
            Instr::ReadStr(..) => OpCode::ReadStr,
            Instr::Call(..) => OpCode::Call,
            Instr::Ret => OpCode::Ret,
            Instr::RetVal => OpCode::RetVal,
            Instr::AllocArray(..) => OpCode::AllocArray,
            Instr::LoadIndex => OpCode::LoadIndex,
            Instr::StoreIndex => OpCode::StoreIndex,
            Instr::ReadFile => OpCode::ReadFile,
            Instr::WriteFile => OpCode::WriteFile,
            Instr::ArgCount => OpCode::ArgCount,
            Instr::Arg => OpCode::Arg,
            Instr::StrLen => OpCode::StrLen,
            Instr::StrConcat => OpCode::StrConcat,
            Instr::StrSubstr => OpCode::StrSubstr,
            Instr::StrReplace => OpCode::StrReplace,
            Instr::VecNew => OpCode::VecNew,
            Instr::VecLen => OpCode::VecLen,
            Instr::VecGet => OpCode::VecGet,
            Instr::VecSet => OpCode::VecSet,
            Instr::VecPush => OpCode::VecPush,
            Instr::VecRemove => OpCode::VecRemove,
            Instr::VecLast => OpCode::VecLast,
            Instr::VecPop => OpCode::VecPop,
            Instr::StackNew => OpCode::StackNew,
            Instr::StackLen => OpCode::StackLen,
            Instr::StackPush => OpCode::StackPush,
            Instr::StackTop => OpCode::StackTop,
            Instr::StackPop => OpCode::StackPop,
            Instr::MapNew => OpCode::MapNew,
            Instr::MapLen => OpCode::MapLen,
            Instr::MapSet => OpCode::MapSet,
            Instr::MapGet => OpCode::MapGet,
            Instr::MapHas => OpCode::MapHas,
            Instr::MapRemove => OpCode::MapRemove,
            Instr::SetNew => OpCode::SetNew,
            Instr::SetLen => OpCode::SetLen,
            Instr::SetAdd => OpCode::SetAdd,
            Instr::SetHas => OpCode::SetHas,
            Instr::SetRemove => OpCode::SetRemove,
            Instr::OptSomeInt => OpCode::OptSomeInt,
            Instr::OptSomeBool => OpCode::OptSomeBool,
            Instr::OptSomeStr => OpCode::OptSomeStr,
            Instr::OptNoneInt => OpCode::OptNoneInt,
            Instr::OptNoneBool => OpCode::OptNoneBool,
            Instr::OptNoneStr => OpCode::OptNoneStr,
            Instr::OptIsSomeInt => OpCode::OptIsSomeInt,
            Instr::OptIsSomeBool => OpCode::OptIsSomeBool,
            Instr::OptIsSomeStr => OpCode::OptIsSomeStr,
            Instr::OptUnwrapInt => OpCode::OptUnwrapInt,
            Instr::OptUnwrapBool => OpCode::OptUnwrapBool,
            Instr::OptUnwrapStr => OpCode::OptUnwrapStr,
            Instr::OptUnwrapOrInt => OpCode::OptUnwrapOrInt,
            Instr::OptUnwrapOrBool => OpCode::OptUnwrapOrBool,
            Instr::OptUnwrapOrStr => OpCode::OptUnwrapOrStr,
            Instr::ResOkInt => OpCode::ResOkInt,
            Instr::ResOkBool => OpCode::ResOkBool,
            Instr::ResOkStr => OpCode::ResOkStr,
            Instr::ResErrInt => OpCode::ResErrInt,
            Instr::ResErrBool => OpCode::ResErrBool,
            Instr::ResErrStr => OpCode::ResErrStr,
            Instr::ResIsOkInt => OpCode::ResIsOkInt,
            Instr::ResIsOkBool => OpCode::ResIsOkBool,
            Instr::ResIsOkStr => OpCode::ResIsOkStr,
            Instr::ResUnwrapInt => OpCode::ResUnwrapInt,
            Instr::ResUnwrapBool => OpCode::ResUnwrapBool,
            Instr::ResUnwrapStr => OpCode::ResUnwrapStr,
            Instr::ResUnwrapOrInt => OpCode::ResUnwrapOrInt,
            Instr::ResUnwrapOrBool => OpCode::ResUnwrapOrBool,
            Instr::ResUnwrapOrStr => OpCode::ResUnwrapOrStr,
            Instr::ResUnwrapErrInt => OpCode::ResUnwrapErrInt,
            Instr::ResUnwrapErrBool => OpCode::ResUnwrapErrBool,
            Instr::ResUnwrapErrStr => OpCode::ResUnwrapErrStr,
            Instr::StrClear => OpCode::StrClear,
            Instr::VecClear => OpCode::VecClear,
            Instr::StackClear => OpCode::StackClear,
            Instr::MapClear => OpCode::MapClear,
            Instr::SetClear => OpCode::SetClear,
            Instr::EnvGet => OpCode::EnvGet,
            Instr::EnvHas => OpCode::EnvHas,
            Instr::Cwd => OpCode::Cwd,
            Instr::PathJoin => OpCode::PathJoin,
            Instr::FsExists => OpCode::FsExists,
            Instr::FsListDir => OpCode::FsListDir,
            Instr::NowTimestamp => OpCode::NowTimestamp,
            Instr::SleepMs => OpCode::SleepMs,
            Instr::LogStr => OpCode::LogStr,
            Instr::LogInt => OpCode::LogInt,
            Instr::LogBool => OpCode::LogBool,
            Instr::BcNew => OpCode::BcNew,
            Instr::BcMain => OpCode::BcMain,
            Instr::BcEmitPrintStr => OpCode::BcEmitPrintStr,
            Instr::BcEmitHalt => OpCode::BcEmitHalt,
            Instr::BcWrite => OpCode::BcWrite,
            Instr::BcEmitConstInt => OpCode::BcEmitConstInt,
            Instr::BcEmitStore0 => OpCode::BcEmitStore0,
            Instr::BcEmitLoad0 => OpCode::BcEmitLoad0,
            Instr::BcEmitPrintLn => OpCode::BcEmitPrintLn,
            Instr::BcEmitConstBool => OpCode::BcEmitConstBool,
            Instr::BcLabel => OpCode::BcLabel,
            Instr::BcJump => OpCode::BcJump,
            Instr::BcJumpIfFalse => OpCode::BcJumpIfFalse,
            Instr::BcEmitConstStr => OpCode::BcEmitConstStr,
            Instr::BcEmitLoad => OpCode::BcEmitLoad,
            Instr::BcEmitStore => OpCode::BcEmitStore,
            Instr::BcEmitAdd => OpCode::BcEmitAdd,
            Instr::BcEmitSub => OpCode::BcEmitSub,
            Instr::BcEmitMul => OpCode::BcEmitMul,
            Instr::BcEmitDiv => OpCode::BcEmitDiv,
            Instr::BcEmitEq => OpCode::BcEmitEq,
            Instr::BcEmitNe => OpCode::BcEmitNe,
            Instr::BcEmitLt => OpCode::BcEmitLt,
            Instr::BcEmitLe => OpCode::BcEmitLe,
            Instr::BcEmitGt => OpCode::BcEmitGt,
            Instr::BcEmitGe => OpCode::BcEmitGe,
            Instr::BcEmitAnd => OpCode::BcEmitAnd,
            Instr::BcEmitOr => OpCode::BcEmitOr,
            Instr::BcEmitNot => OpCode::BcEmitNot,
            Instr::BcEmitNeg => OpCode::BcEmitNeg,
            Instr::BcEmitStrLen => OpCode::BcEmitStrLen,
            Instr::BcEmitStrConcat => OpCode::BcEmitStrConcat,
            Instr::BcEmitStrSubstr => OpCode::BcEmitStrSubstr,
            Instr::BcEmitStrReplace => OpCode::BcEmitStrReplace,
            Instr::BcEmitVecNew => OpCode::BcEmitVecNew,
            Instr::BcEmitVecLen => OpCode::BcEmitVecLen,
            Instr::BcEmitVecGet => OpCode::BcEmitVecGet,
            Instr::BcEmitVecSet => OpCode::BcEmitVecSet,
            Instr::BcEmitVecPush => OpCode::BcEmitVecPush,
            Instr::BcEmitVecRemove => OpCode::BcEmitVecRemove,
            Instr::BcEmitVecLast => OpCode::BcEmitVecLast,
            Instr::BcEmitVecPop => OpCode::BcEmitVecPop,
            Instr::BcEmitMapNew => OpCode::BcEmitMapNew,
            Instr::BcEmitMapLen => OpCode::BcEmitMapLen,
            Instr::BcEmitMapSet => OpCode::BcEmitMapSet,
            Instr::BcEmitMapGet => OpCode::BcEmitMapGet,
            Instr::BcEmitMapHas => OpCode::BcEmitMapHas,
            Instr::BcEmitMapRemove => OpCode::BcEmitMapRemove,
            Instr::BcEmitReadFile => OpCode::BcEmitReadFile,
            Instr::BcEmitWriteFile => OpCode::BcEmitWriteFile,
            Instr::BcEmitArgCount => OpCode::BcEmitArgCount,
            Instr::BcEmitArg => OpCode::BcEmitArg,
            Instr::BcEmitStrClear => OpCode::BcEmitStrClear,
            Instr::BcEmitVecClear => OpCode::BcEmitVecClear,
            Instr::BcEmitMapClear => OpCode::BcEmitMapClear,
            Instr::BcFuncBegin => OpCode::BcFuncBegin,
            Instr::BcFuncEnd => OpCode::BcFuncEnd,
            Instr::BcEmitCall => OpCode::BcEmitCall,
            Instr::BcEmitRet => OpCode::BcEmitRet,
            Instr::BcEmitRetVal => OpCode::BcEmitRetVal,
            Instr::BcEmitEnvGet => OpCode::BcEmitEnvGet,
            Instr::BcEmitEnvHas => OpCode::BcEmitEnvHas,
            Instr::BcEmitCwd => OpCode::BcEmitCwd,
            Instr::BcEmitPathJoin => OpCode::BcEmitPathJoin,
            Instr::BcEmitFsExists => OpCode::BcEmitFsExists,
            Instr::BcEmitFsListDir => OpCode::BcEmitFsListDir,
            Instr::BcEmitNowTimestamp => OpCode::BcEmitNowTimestamp,
            Instr::BcEmitConstIntOp => OpCode::BcEmitConstIntOp,
            Instr::BcEmitConstBoolOp => OpCode::BcEmitConstBoolOp,
            Instr::BcEmitConstStrOp => OpCode::BcEmitConstStrOp,
            Instr::BcEmitLoadOp => OpCode::BcEmitLoadOp,
            Instr::BcEmitStoreOp => OpCode::BcEmitStoreOp,
            Instr::BcEmitCallOp => OpCode::BcEmitCallOp,
            Instr::BcNewOp => OpCode::BcNewOp,
            Instr::BcWriteOp => OpCode::BcWriteOp,
            Instr::BcLabelOp => OpCode::BcLabelOp,
            Instr::BcJumpOp => OpCode::BcJumpOp,
            Instr::BcJumpIfFalseOp => OpCode::BcJumpIfFalseOp,
            Instr::BcFuncBeginOp => OpCode::BcFuncBeginOp,
            Instr::BcMainOp => OpCode::BcMainOp,
            Instr::BcFuncEndOp => OpCode::BcFuncEndOp,
            Instr::BcEmitHaltOp => OpCode::BcEmitHaltOp,
            Instr::BcEmitRetOp => OpCode::BcEmitRetOp,
            Instr::BcEmitRetValOp => OpCode::BcEmitRetValOp,
            Instr::BcEmitPrintLnOp => OpCode::BcEmitPrintLnOp,
            Instr::BcEmitWriteFileOp => OpCode::BcEmitWriteFileOp,
            Instr::BcEmitAddOp => OpCode::BcEmitAddOp,
            Instr::BcEmitSubOp => OpCode::BcEmitSubOp,
            Instr::BcEmitMulOp => OpCode::BcEmitMulOp,
            Instr::BcEmitDivOp => OpCode::BcEmitDivOp,
            Instr::BcEmitEqOp => OpCode::BcEmitEqOp,
            Instr::BcEmitNeOp => OpCode::BcEmitNeOp,
            Instr::BcEmitLtOp => OpCode::BcEmitLtOp,
            Instr::BcEmitLeOp => OpCode::BcEmitLeOp,
            Instr::BcEmitGtOp => OpCode::BcEmitGtOp,
            Instr::BcEmitGeOp => OpCode::BcEmitGeOp,
            Instr::BcEmitAndOp => OpCode::BcEmitAndOp,
            Instr::BcEmitOrOp => OpCode::BcEmitOrOp,
            Instr::BcEmitNotOp => OpCode::BcEmitNotOp,
            Instr::BcEmitNegOp => OpCode::BcEmitNegOp,
            Instr::BcEmitStrLenOp => OpCode::BcEmitStrLenOp,
            Instr::BcEmitStrConcatOp => OpCode::BcEmitStrConcatOp,
            Instr::BcEmitStrSubstrOp => OpCode::BcEmitStrSubstrOp,
            Instr::BcEmitStrReplaceOp => OpCode::BcEmitStrReplaceOp,
            Instr::BcEmitVecNewOp => OpCode::BcEmitVecNewOp,
            Instr::BcEmitVecLenOp => OpCode::BcEmitVecLenOp,
            Instr::BcEmitVecGetOp => OpCode::BcEmitVecGetOp,
            Instr::BcEmitVecSetOp => OpCode::BcEmitVecSetOp,
            Instr::BcEmitVecPushOp => OpCode::BcEmitVecPushOp,
            Instr::BcEmitVecRemoveOp => OpCode::BcEmitVecRemoveOp,
            Instr::BcEmitVecLastOp => OpCode::BcEmitVecLastOp,
            Instr::BcEmitVecPopOp => OpCode::BcEmitVecPopOp,
            Instr::BcEmitVecClearOp => OpCode::BcEmitVecClearOp,
            Instr::BcEmitMapNewOp => OpCode::BcEmitMapNewOp,
            Instr::BcEmitMapLenOp => OpCode::BcEmitMapLenOp,
            Instr::BcEmitMapSetOp => OpCode::BcEmitMapSetOp,
            Instr::BcEmitMapGetOp => OpCode::BcEmitMapGetOp,
            Instr::BcEmitMapHasOp => OpCode::BcEmitMapHasOp,
            Instr::BcEmitMapRemoveOp => OpCode::BcEmitMapRemoveOp,
            Instr::BcEmitMapClearOp => OpCode::BcEmitMapClearOp,
            Instr::BcEmitReadFileOp => OpCode::BcEmitReadFileOp,
            Instr::BcEmitArgCountOp => OpCode::BcEmitArgCountOp,
            Instr::BcEmitArgOp => OpCode::BcEmitArgOp,
            Instr::BcEmitEnvGetOp => OpCode::BcEmitEnvGetOp,
            Instr::BcEmitEnvHasOp => OpCode::BcEmitEnvHasOp,
            Instr::BcEmitCwdOp => OpCode::BcEmitCwdOp,
            Instr::BcEmitPathJoinOp => OpCode::BcEmitPathJoinOp,
            Instr::BcEmitFsExistsOp => OpCode::BcEmitFsExistsOp,
            Instr::BcEmitFsListDirOp => OpCode::BcEmitFsListDirOp,
            Instr::BcEmitNowTimestampOp => OpCode::BcEmitNowTimestampOp,
            Instr::MetaBcNew => OpCode::MetaBcNew,
            Instr::MetaBcMain => OpCode::MetaBcMain,
            Instr::MetaBcWrite => OpCode::MetaBcWrite,
            Instr::MetaBcFuncBegin => OpCode::MetaBcFuncBegin,
            Instr::MetaBcFuncEnd => OpCode::MetaBcFuncEnd,
            Instr::MetaBcEmitHalt => OpCode::MetaBcEmitHalt,
            Instr::MetaBcLabel => OpCode::MetaBcLabel,
            Instr::MetaBcJump => OpCode::MetaBcJump,
            Instr::MetaBcJumpIfFalse => OpCode::MetaBcJumpIfFalse,
            Instr::Halt => OpCode::Halt,
        }
    }

    /// The mathematical content of this instruction.
    pub open spec fn model(&self) -> InstrModel {
        match self {
            Instr::ConstInt(v) => (OpCode::ConstInt, *v, false, Seq::<char>::empty(), 0u32),
            Instr::ConstBool(b) => (OpCode::ConstBool, 0i64, *b, Seq::<char>::empty(), 0u32),
            Instr::ConstStr(s) => (OpCode::ConstStr, 0i64, false, s@, 0u32),
            Instr::Load(x) => (OpCode::Load, 0i64, false, Seq::<char>::empty(), *x),
            Instr::Store(x) => (OpCode::Store, 0i64, false, Seq::<char>::empty(), *x),
            Instr::Jump(x) => (OpCode::Jump, 0i64, false, Seq::<char>::empty(), *x),
            Instr::JumpIfFalse(x) => (OpCode::JumpIfFalse, 0i64, false, Seq::<char>::empty(), *x),
            Instr::ReadInt(x) => (OpCode::ReadInt, 0i64, false, Seq::<char>::empty(), *x),
            Instr::ReadBool(x) => (OpCode::ReadBool, 0i64, false, Seq::<char>::empty(), *x),
            Instr::ReadStr(x) => (OpCode::ReadStr, 0i64, false, Seq::<char>::empty(), *x),
            Instr::Call(x) => (OpCode::Call, 0i64, false, Seq::<char>::empty(), *x),
            Instr::AllocArray(x) => (OpCode::AllocArray, 0i64, false, Seq::<char>::empty(), *x),
            _ => plain_model(self.spec_opcode()),
        }
    }

    /// An instruction with the same model as this one.
    #[verifier::rlimit(100)]
    pub fn duplicate(&self) -> (r: Instr)
        ensures
            r.model() == self.model(),
    {
        match self {
            Instr::ConstInt(v) => Instr::ConstInt(*v),
            Instr::ConstBool(b) => Instr::ConstBool(*b),
            Instr::ConstStr(s) => Instr::ConstStr(s.clone()),
            Instr::Load(x) => Instr::Load(*x),
            Instr::Store(x) => Instr::Store(*x),
            Instr::Jump(x) => Instr::Jump(*x),
            Instr::JumpIfFalse(x) => Instr::JumpIfFalse(*x),
            Instr::ReadInt(x) => Instr::ReadInt(*x),
            Instr::ReadBool(x) => Instr::ReadBool(*x),
            Instr::ReadStr(x) => Instr::ReadStr(*x),
            Instr::Call(x) => Instr::Call(*x),
            Instr::AllocArray(x) => Instr::AllocArray(*x),
            _ => {
                proof {
                    lemma_model_opcode(*self);
                }
                Instr::from_plain(self.opcode())
            },
        }
    }

    /// The instruction of an operation that carries no operand.
    #[verifier::rlimit(100)]
    pub fn from_plain(op: OpCode) -> (i: Instr)
        requires
            !op.spec_has_operand(),
        ensures
            i.model() == plain_model(op),
    {
        match op {
            OpCode::Add => Instr::Add,
            OpCode::Sub => Instr::Sub,
            OpCode::Mul => Instr::Mul,
            OpCode::Div => Instr::Div,
            OpCode::Eq => Instr::Eq,
            OpCode::Ne => Instr::Ne,
            OpCode::Lt => Instr::Lt,
            OpCode::Le => Instr::Le,
            OpCode::Gt => Instr::Gt,
            OpCode::Ge => Instr::Ge,
            OpCode::StrEq => Instr::StrEq,
            OpCode::StrNe => Instr::StrNe,
            OpCode::And => Instr::And,
            OpCode::Or => Instr::Or,
            OpCode::Not => Instr::Not,
            OpCode::Neg => Instr::Neg,
            OpCode::PrintLn => Instr::PrintLn,
            OpCode::Ret => Instr::Ret,
            OpCode::RetVal => Instr::RetVal,
            OpCode::LoadIndex => Instr::LoadIndex,
            OpCode::StoreIndex => Instr::StoreIndex,
            OpCode::ReadFile => Instr::ReadFile,
            OpCode::WriteFile => Instr::WriteFile,
            OpCode::ArgCount => Instr::ArgCount,
            OpCode::Arg => Instr::Arg,
            OpCode::StrLen => Instr::StrLen,
            OpCode::StrConcat => Instr::StrConcat,
            OpCode::StrSubstr => Instr::StrSubstr,
            OpCode::StrReplace => Instr::StrReplace,
            OpCode::VecNew => Instr::VecNew,
            OpCode::VecLen => Instr::VecLen,
            OpCode::VecGet => Instr::VecGet,
            OpCode::VecSet => Instr::VecSet,
            OpCode::VecPush => Instr::VecPush,
            OpCode::VecRemove => Instr::VecRemove,
            OpCode::VecLast => Instr::VecLast,
            OpCode::VecPop => Instr::VecPop,
            OpCode::StackNew => Instr::StackNew,
            OpCode::StackLen => Instr::StackLen,
            OpCode::StackPush => Instr::StackPush,
            OpCode::StackTop => Instr::StackTop,
            OpCode::StackPop => Instr::StackPop,
            OpCode::MapNew => Instr::MapNew,
            OpCode::MapLen => Instr::MapLen,
            OpCode::MapSet => Instr::MapSet,
            OpCode::MapGet => Instr::MapGet,
            OpCode::MapHas => Instr::MapHas,
            OpCode::MapRemove => Instr::MapRemove,
            OpCode::SetNew => Instr::SetNew,
            OpCode::SetLen => Instr::SetLen,
            OpCode::SetAdd => Instr::SetAdd,
            OpCode::SetHas => Instr::SetHas,
            OpCode::SetRemove => Instr::SetRemove,
            OpCode::OptSomeInt => Instr::OptSomeInt,
            OpCode::OptSomeBool => Instr::OptSomeBool,
            OpCode::OptSomeStr => Instr::OptSomeStr,
            OpCode::OptNoneInt => Instr::OptNoneInt,
            OpCode::OptNoneBool => Instr::OptNoneBool,
            OpCode::OptNoneStr => Instr::OptNoneStr,
            OpCode::OptIsSomeInt => Instr::OptIsSomeInt,
            OpCode::OptIsSomeBool => Instr::OptIsSomeBool,
            OpCode::OptIsSomeStr => Instr::OptIsSomeStr,
            OpCode::OptUnwrapInt => Instr::OptUnwrapInt,
            OpCode::OptUnwrapBool => Instr::OptUnwrapBool,
            OpCode::OptUnwrapStr => Instr::OptUnwrapStr,
            OpCode::OptUnwrapOrInt => Instr::OptUnwrapOrInt,
            OpCode::OptUnwrapOrBool => Instr::OptUnwrapOrBool,
            OpCode::OptUnwrapOrStr => Instr::OptUnwrapOrStr,
            OpCode::ResOkInt => Instr::ResOkInt,
            OpCode::ResOkBool => Instr::ResOkBool,
            OpCode::ResOkStr => Instr::ResOkStr,
            OpCode::ResErrInt => Instr::ResErrInt,
            OpCode::ResErrBool => Instr::ResErrBool,
            OpCode::ResErrStr => Instr::ResErrStr,
            OpCode::ResIsOkInt => Instr::ResIsOkInt,
            OpCode::ResIsOkBool => Instr::ResIsOkBool,
            OpCode::ResIsOkStr => Instr::ResIsOkStr,
            OpCode::ResUnwrapInt => Instr::ResUnwrapInt,
            OpCode::ResUnwrapBool => Instr::ResUnwrapBool,
            OpCode::ResUnwrapStr => Instr::ResUnwrapStr,
            OpCode::ResUnwrapOrInt => Instr::ResUnwrapOrInt,
            OpCode::ResUnwrapOrBool => Instr::ResUnwrapOrBool,
            OpCode::ResUnwrapOrStr => Instr::ResUnwrapOrStr,
            OpCode::ResUnwrapErrInt => Instr::ResUnwrapErrInt,
            OpCode::ResUnwrapErrBool => Instr::ResUnwrapErrBool,
            OpCode::ResUnwrapErrStr => Instr::ResUnwrapErrStr,
            OpCode::StrClear => Instr::StrClear,
            OpCode::VecClear => Instr::VecClear,
            OpCode::StackClear => Instr::StackClear,
            OpCode::MapClear => Instr::MapClear,
            OpCode::SetClear => Instr::SetClear,
            OpCode::EnvGet => Instr::EnvGet,
            OpCode::EnvHas => Instr::EnvHas,
            OpCode::Cwd => Instr::Cwd,
            OpCode::PathJoin => Instr::PathJoin,
            OpCode::FsExists => Instr::FsExists,
            OpCode::FsListDir => Instr::FsListDir,
            OpCode::NowTimestamp => Instr::NowTimestamp,
            OpCode::SleepMs => Instr::SleepMs,
            OpCode::LogStr => Instr::LogStr,
            OpCode::LogInt => Instr::LogInt,
            OpCode::LogBool => Instr::LogBool,
            OpCode::BcNew => Instr::BcNew,
            OpCode::BcMain => Instr::BcMain,
            OpCode::BcEmitPrintStr => Instr::BcEmitPrintStr,
            OpCode::BcEmitHalt => Instr::BcEmitHalt,
            OpCode::BcWrite => Instr::BcWrite,
            OpCode::BcEmitConstInt => Instr::BcEmitConstInt,
            OpCode::BcEmitStore0 => Instr::BcEmitStore0,
            OpCode::BcEmitLoad0 => Instr::BcEmitLoad0,
            OpCode::BcEmitPrintLn => Instr::BcEmitPrintLn,
            OpCode::BcEmitConstBool => Instr::BcEmitConstBool,
            OpCode::BcLabel => Instr::BcLabel,
            OpCode::BcJump => Instr::BcJump,
            OpCode::BcJumpIfFalse => Instr::BcJumpIfFalse,
            OpCode::BcEmitConstStr => Instr::BcEmitConstStr,
            OpCode::BcEmitLoad => Instr::BcEmitLoad,
            OpCode::BcEmitStore => Instr::BcEmitStore,
            OpCode::BcEmitAdd => Instr::BcEmitAdd,
            OpCode::BcEmitSub => Instr::BcEmitSub,
            OpCode::BcEmitMul => Instr::BcEmitMul,
            OpCode::BcEmitDiv => Instr::BcEmitDiv,
            OpCode::BcEmitEq => Instr::BcEmitEq,
            OpCode::BcEmitNe => Instr::BcEmitNe,
            OpCode::BcEmitLt => Instr::BcEmitLt,
            OpCode::BcEmitLe => Instr::BcEmitLe,
            OpCode::BcEmitGt => Instr::BcEmitGt,
            OpCode::BcEmitGe => Instr::BcEmitGe,
            OpCode::BcEmitAnd => Instr::BcEmitAnd,
            OpCode::BcEmitOr => Instr::BcEmitOr,
            OpCode::BcEmitNot => Instr::BcEmitNot,
            OpCode::BcEmitNeg => Instr::BcEmitNeg,
            OpCode::BcEmitStrLen => Instr::BcEmitStrLen,
            OpCode::BcEmitStrConcat => Instr::BcEmitStrConcat,
            OpCode::BcEmitStrSubstr => Instr::BcEmitStrSubstr,
            OpCode::BcEmitStrReplace => Instr::BcEmitStrReplace,
            OpCode::BcEmitVecNew => Instr::BcEmitVecNew,
            OpCode::BcEmitVecLen => Instr::BcEmitVecLen,
            OpCode::BcEmitVecGet => Instr::BcEmitVecGet,
            OpCode::BcEmitVecSet => Instr::BcEmitVecSet,
            OpCode::BcEmitVecPush => Instr::BcEmitVecPush,
            OpCode::BcEmitVecRemove => Instr::BcEmitVecRemove,
            OpCode::BcEmitVecLast => Instr::BcEmitVecLast,
            OpCode::BcEmitVecPop => Instr::BcEmitVecPop,
            OpCode::BcEmitMapNew => Instr::BcEmitMapNew,
            OpCode::BcEmitMapLen => Instr::BcEmitMapLen,
            OpCode::BcEmitMapSet => Instr::BcEmitMapSet,
            OpCode::BcEmitMapGet => Instr::BcEmitMapGet,
            OpCode::BcEmitMapHas => Instr::BcEmitMapHas,
            OpCode::BcEmitMapRemove => Instr::BcEmitMapRemove,
            OpCode::BcEmitReadFile => Instr::BcEmitReadFile,
            OpCode::BcEmitWriteFile => Instr::BcEmitWriteFile,
            OpCode::BcEmitArgCount => Instr::BcEmitArgCount,
            OpCode::BcEmitArg => Instr::BcEmitArg,
            OpCode::BcEmitStrClear => Instr::BcEmitStrClear,
            OpCode::BcEmitVecClear => Instr::BcEmitVecClear,
            OpCode::BcEmitMapClear => Instr::BcEmitMapClear,
            OpCode::BcFuncBegin => Instr::BcFuncBegin,
            OpCode::BcFuncEnd => Instr::BcFuncEnd,
            OpCode::BcEmitCall => Instr::BcEmitCall,
            OpCode::BcEmitRet => Instr::BcEmitRet,
            OpCode::BcEmitRetVal => Instr::BcEmitRetVal,
            OpCode::BcEmitEnvGet => Instr::BcEmitEnvGet,
            OpCode::BcEmitEnvHas => Instr::BcEmitEnvHas,
            OpCode::BcEmitCwd => Instr::BcEmitCwd,
            OpCode::BcEmitPathJoin => Instr::BcEmitPathJoin,
            OpCode::BcEmitFsExists => Instr::BcEmitFsExists,
            OpCode::BcEmitFsListDir => Instr::BcEmitFsListDir,
            OpCode::BcEmitNowTimestamp => Instr::BcEmitNowTimestamp,
            OpCode::BcEmitConstIntOp => Instr::BcEmitConstIntOp,
            OpCode::BcEmitConstBoolOp => Instr::BcEmitConstBoolOp,
            OpCode::BcEmitConstStrOp => Instr::BcEmitConstStrOp,
            OpCode::BcEmitLoadOp => Instr::BcEmitLoadOp,
            OpCode::BcEmitStoreOp => Instr::BcEmitStoreOp,
            OpCode::BcEmitCallOp => Instr::BcEmitCallOp,
            OpCode::BcNewOp => Instr::BcNewOp,
            OpCode::BcWriteOp => Instr::BcWriteOp,
            OpCode::BcLabelOp => Instr::BcLabelOp,
            OpCode::BcJumpOp => Instr::BcJumpOp,
            OpCode::BcJumpIfFalseOp => Instr::BcJumpIfFalseOp,
            OpCode::BcFuncBeginOp => Instr::BcFuncBeginOp,
            OpCode::BcMainOp => Instr::BcMainOp,
            OpCode::BcFuncEndOp => Instr::BcFuncEndOp,
            OpCode::BcEmitHaltOp => Instr::BcEmitHaltOp,
            OpCode::BcEmitRetOp => Instr::BcEmitRetOp,
            OpCode::BcEmitRetValOp => Instr::BcEmitRetValOp,
            OpCode::BcEmitPrintLnOp => Instr::BcEmitPrintLnOp,
            OpCode::BcEmitWriteFileOp => Instr::BcEmitWriteFileOp,
            OpCode::BcEmitAddOp => Instr::BcEmitAddOp,
            OpCode::BcEmitSubOp => Instr::BcEmitSubOp,
            OpCode::BcEmitMulOp => Instr::BcEmitMulOp,
            OpCode::BcEmitDivOp => Instr::BcEmitDivOp,
            OpCode::BcEmitEqOp => Instr::BcEmitEqOp,
            OpCode::BcEmitNeOp => Instr::BcEmitNeOp,
            OpCode::BcEmitLtOp => Instr::BcEmitLtOp,
            OpCode::BcEmitLeOp => Instr::BcEmitLeOp,
            OpCode::BcEmitGtOp => Instr::BcEmitGtOp,
            OpCode::BcEmitGeOp => Instr::BcEmitGeOp,
            OpCode::BcEmitAndOp => Instr::BcEmitAndOp,
            OpCode::BcEmitOrOp => Instr::BcEmitOrOp,
            OpCode::BcEmitNotOp => Instr::BcEmitNotOp,
            OpCode::BcEmitNegOp => Instr::BcEmitNegOp,
            OpCode::BcEmitStrLenOp => Instr::BcEmitStrLenOp,
            OpCode::BcEmitStrConcatOp => Instr::BcEmitStrConcatOp,
            OpCode::BcEmitStrSubstrOp => Instr::BcEmitStrSubstrOp,
            OpCode::BcEmitStrReplaceOp => Instr::BcEmitStrReplaceOp,
            OpCode::BcEmitVecNewOp => Instr::BcEmitVecNewOp,
            OpCode::BcEmitVecLenOp => Instr::BcEmitVecLenOp,
            OpCode::BcEmitVecGetOp => Instr::BcEmitVecGetOp,
            OpCode::BcEmitVecSetOp => Instr::BcEmitVecSetOp,
            OpCode::BcEmitVecPushOp => Instr::BcEmitVecPushOp,
            OpCode::BcEmitVecRemoveOp => Instr::BcEmitVecRemoveOp,
            OpCode::BcEmitVecLastOp => Instr::BcEmitVecLastOp,
            OpCode::BcEmitVecPopOp => Instr::BcEmitVecPopOp,
            OpCode::BcEmitVecClearOp => Instr::BcEmitVecClearOp,
            OpCode::BcEmitMapNewOp => Instr::BcEmitMapNewOp,
            OpCode::BcEmitMapLenOp => Instr::BcEmitMapLenOp,
            OpCode::BcEmitMapSetOp => Instr::BcEmitMapSetOp,
            OpCode::BcEmitMapGetOp => Instr::BcEmitMapGetOp,
            OpCode::BcEmitMapHasOp => Instr::BcEmitMapHasOp,
            OpCode::BcEmitMapRemoveOp => Instr::BcEmitMapRemoveOp,
            OpCode::BcEmitMapClearOp => Instr::BcEmitMapClearOp,
            OpCode::BcEmitReadFileOp => Instr::BcEmitReadFileOp,
            OpCode::BcEmitArgCountOp => Instr::BcEmitArgCountOp,
            OpCode::BcEmitArgOp => Instr::BcEmitArgOp,
            OpCode::BcEmitEnvGetOp => Instr::BcEmitEnvGetOp,
            OpCode::BcEmitEnvHasOp => Instr::BcEmitEnvHasOp,
            OpCode::BcEmitCwdOp => Instr::BcEmitCwdOp,
            OpCode::BcEmitPathJoinOp => Instr::BcEmitPathJoinOp,
            OpCode::BcEmitFsExistsOp => Instr::BcEmitFsExistsOp,
            OpCode::BcEmitFsListDirOp => Instr::BcEmitFsListDirOp,
            OpCode::BcEmitNowTimestampOp => Instr::BcEmitNowTimestampOp,
            OpCode::MetaBcNew => Instr::MetaBcNew,
            OpCode::MetaBcMain => Instr::MetaBcMain,
            OpCode::MetaBcWrite => Instr::MetaBcWrite,
            OpCode::MetaBcFuncBegin => Instr::MetaBcFuncBegin,
            OpCode::MetaBcFuncEnd => Instr::MetaBcFuncEnd,
            OpCode::MetaBcEmitHalt => Instr::MetaBcEmitHalt,
            OpCode::MetaBcLabel => Instr::MetaBcLabel,
            OpCode::MetaBcJump => Instr::MetaBcJump,
            OpCode::MetaBcJumpIfFalse => Instr::MetaBcJumpIfFalse,
            OpCode::Halt => Instr::Halt,
            _ => Instr::Halt,
        }
    }

}

/// A compiled function: its name, its number of parameters and of local
/// slots, and its code.
#[derive(Debug, Clone)]
pub struct Function {
    pub name: String,
    pub param_count: u32,
    pub locals: u32,
    pub code: Vec<Instr>,
}

/// A compiled program: a name, its functions, and the index of the function
/// that runs first.
#[derive(Debug, Clone)]
pub struct Bytecode {
    pub name: String,
    pub functions: Vec<Function>,
    pub entry: u32,
}

/// The mathematical content of a function: name, parameter count, local count
/// and the models of its instructions.
pub type FunctionModel = (Seq<char>, u32, u32, Seq<InstrModel>);

/// The mathematical content of a whole bytecode unit.
pub type BytecodeModel = (Seq<char>, Seq<FunctionModel>, u32);

/// The operation in an instruction's model is the instruction's operation,
/// and only the instructions that carry an operand have an operation that
/// does.
#[verifier::rlimit(100)]
pub proof fn lemma_model_opcode(i: Instr)
    ensures
        i.model().0 == i.spec_opcode(),
        i.spec_opcode().spec_has_operand() <==> (i is ConstInt || i is ConstBool || i is ConstStr
            || i is Load || i is Store || i is Jump || i is JumpIfFalse || i is ReadInt
            || i is ReadBool || i is ReadStr || i is Call || i is AllocArray),
{
}

/// The models of a sequence of instructions.
pub open spec fn code_model(code: Seq<Instr>) -> Seq<InstrModel> {
    code.map_values(|i: Instr| i.model())
}

impl Function {
    pub open spec fn model(&self) -> FunctionModel {
        (self.name@, self.param_count, self.locals, code_model(self.code@))
    }
}

/// The models of a sequence of functions.
pub open spec fn functions_model(fs: Seq<Function>) -> Seq<FunctionModel> {
    fs.map_values(|f: Function| f.model())
}

impl Bytecode {
    pub open spec fn model(&self) -> BytecodeModel {
        (self.name@, functions_model(self.functions@), self.entry)
    }
}

} // verus!
