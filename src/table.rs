//! The fixed mapping from Cppcheck rule identifiers to internal diagnostic
//! codes.
//!
//! The table lists every known identifier once, at a position. Identifiers of
//! the MISRA C:2012 addon come first and take the codes `CXX-W3001` onwards, in
//! table order; Cppcheck's own checker identifiers follow and take the codes
//! `CXX-W3500` onwards. New identifiers are only ever appended to a block, so a
//! code, once given, keeps its meaning.
use vstd::prelude::*;

verus! {

broadcast use vstd::string::group_string_axioms;

/// How many identifiers of the MISRA C:2012 addon the table holds.
pub const MISRA_RULES: usize = 157;

/// How many identifiers the table holds in all.
pub const TABLE_LEN: usize = 462;

/// The number of the first MISRA code.
pub const MISRA_BASE: u32 = 3001;

/// The number of the first code of Cppcheck's own checkers.
pub const CHECKER_BASE: u32 = 3500;

/// The identifier at position `i` of the table (empty outside it).
pub open spec fn rule_id(i: int) -> Seq<char> {
    if i < 40 {
        rule_id_0(i)
    } else if i < 80 {
        rule_id_1(i)
    } else if i < 120 {
        rule_id_2(i)
    } else if i < 160 {
        rule_id_3(i)
    } else if i < 200 {
        rule_id_4(i)
    } else if i < 240 {
        rule_id_5(i)
    } else if i < 280 {
        rule_id_6(i)
    } else if i < 320 {
        rule_id_7(i)
    } else if i < 360 {
        rule_id_8(i)
    } else if i < 400 {
        rule_id_9(i)
    } else if i < 440 {
        rule_id_10(i)
    } else if i < 462 {
        rule_id_11(i)
    } else {
        Seq::empty()
    }
}

/// Positions 0 to 39 of the table.
pub open spec fn rule_id_0(i: int) -> Seq<char> {
    if i == 0 {
        "misra-c2012-1.1"@
    } else if i == 1 {
        "misra-c2012-1.2"@
    } else if i == 2 {
        "misra-c2012-1.3"@
    } else if i == 3 {
        "misra-c2012-1.4"@
    } else if i == 4 {
        "misra-c2012-2.1"@
    } else if i == 5 {
        "misra-c2012-2.2"@
    } else if i == 6 {
        "misra-c2012-2.3"@
    } else if i == 7 {
        "misra-c2012-2.4"@
    } else if i == 8 {
        "misra-c2012-2.5"@
    } else if i == 9 {
        "misra-c2012-2.6"@
    } else if i == 10 {
        "misra-c2012-2.7"@
    } else if i == 11 {
        "misra-c2012-3.1"@
    } else if i == 12 {
        "misra-c2012-3.2"@
    } else if i == 13 {
        "misra-c2012-4.1"@
    } else if i == 14 {
        "misra-c2012-4.2"@
    } else if i == 15 {
        "misra-c2012-5.1"@
    } else if i == 16 {
        "misra-c2012-5.2"@
    } else if i == 17 {
        "misra-c2012-5.3"@
    } else if i == 18 {
        "misra-c2012-5.4"@
    } else if i == 19 {
        "misra-c2012-5.5"@
    } else if i == 20 {
        "misra-c2012-5.6"@
    } else if i == 21 {
        "misra-c2012-5.7"@
    } else if i == 22 {
        "misra-c2012-5.8"@
    } else if i == 23 {
        "misra-c2012-5.9"@
    } else if i == 24 {
        "misra-c2012-6.1"@
    } else if i == 25 {
        "misra-c2012-6.2"@
    } else if i == 26 {
        "misra-c2012-7.1"@
    } else if i == 27 {
        "misra-c2012-7.2"@
    } else if i == 28 {
        "misra-c2012-7.3"@
    } else if i == 29 {
        "misra-c2012-7.4"@
    } else if i == 30 {
        "misra-c2012-8.1"@
    } else if i == 31 {
        "misra-c2012-8.2"@
    } else if i == 32 {
        "misra-c2012-8.3"@
    } else if i == 33 {
        "misra-c2012-8.4"@
    } else if i == 34 {
        "misra-c2012-8.5"@
    } else if i == 35 {
        "misra-c2012-8.6"@
    } else if i == 36 {
        "misra-c2012-8.7"@
    } else if i == 37 {
        "misra-c2012-8.8"@
    } else if i == 38 {
        "misra-c2012-8.9"@
    } else if i == 39 {
        "misra-c2012-8.10"@
    } else {
        Seq::empty()
    }
}

/// Positions 40 to 79 of the table.
pub open spec fn rule_id_1(i: int) -> Seq<char> {
    if i == 40 {
        "misra-c2012-8.11"@
    } else if i == 41 {
        "misra-c2012-8.12"@
    } else if i == 42 {
        "misra-c2012-8.13"@
    } else if i == 43 {
        "misra-c2012-8.14"@
    } else if i == 44 {
        "misra-c2012-9.1"@
    } else if i == 45 {
        "misra-c2012-9.2"@
    } else if i == 46 {
        "misra-c2012-9.3"@
    } else if i == 47 {
        "misra-c2012-9.4"@
    } else if i == 48 {
        "misra-c2012-9.5"@
    } else if i == 49 {
        "misra-c2012-10.1"@
    } else if i == 50 {
        "misra-c2012-10.2"@
    } else if i == 51 {
        "misra-c2012-10.3"@
    } else if i == 52 {
        "misra-c2012-10.4"@
    } else if i == 53 {
        "misra-c2012-10.5"@
    } else if i == 54 {
        "misra-c2012-10.6"@
    } else if i == 55 {
        "misra-c2012-10.7"@
    } else if i == 56 {
        "misra-c2012-10.8"@
    } else if i == 57 {
        "misra-c2012-11.1"@
    } else if i == 58 {
        "misra-c2012-11.2"@
    } else if i == 59 {
        "misra-c2012-11.3"@
    } else if i == 60 {
        "misra-c2012-11.4"@
    } else if i == 61 {
        "misra-c2012-11.5"@
    } else if i == 62 {
        "misra-c2012-11.6"@
    } else if i == 63 {
        "misra-c2012-11.7"@
    } else if i == 64 {
        "misra-c2012-11.8"@
    } else if i == 65 {
        "misra-c2012-11.9"@
    } else if i == 66 {
        "misra-c2012-12.1"@
    } else if i == 67 {
        "misra-c2012-12.2"@
    } else if i == 68 {
        "misra-c2012-12.3"@
    } else if i == 69 {
        "misra-c2012-12.4"@
    } else if i == 70 {
        "misra-c2012-13.1"@
    } else if i == 71 {
        "misra-c2012-13.2"@
    } else if i == 72 {
        "misra-c2012-13.3"@
    } else if i == 73 {
        "misra-c2012-13.4"@
    } else if i == 74 {
        "misra-c2012-13.5"@
    } else if i == 75 {
        "misra-c2012-13.6"@
    } else if i == 76 {
        "misra-c2012-14.1"@
    } else if i == 77 {
        "misra-c2012-14.2"@
    } else if i == 78 {
        "misra-c2012-14.3"@
    } else if i == 79 {
        "misra-c2012-14.4"@
    } else {
        Seq::empty()
    }
}

/// Positions 80 to 119 of the table.
pub open spec fn rule_id_2(i: int) -> Seq<char> {
    if i == 80 {
        "misra-c2012-15.1"@
    } else if i == 81 {
        "misra-c2012-15.2"@
    } else if i == 82 {
        "misra-c2012-15.3"@
    } else if i == 83 {
        "misra-c2012-15.4"@
    } else if i == 84 {
        "misra-c2012-15.5"@
    } else if i == 85 {
        "misra-c2012-15.6"@
    } else if i == 86 {
        "misra-c2012-15.7"@
    } else if i == 87 {
        "misra-c2012-16.1"@
    } else if i == 88 {
        "misra-c2012-16.2"@
    } else if i == 89 {
        "misra-c2012-16.3"@
    } else if i == 90 {
        "misra-c2012-16.4"@
    } else if i == 91 {
        "misra-c2012-16.5"@
    } else if i == 92 {
        "misra-c2012-16.6"@
    } else if i == 93 {
        "misra-c2012-16.7"@
    } else if i == 94 {
        "misra-c2012-17.1"@
    } else if i == 95 {
        "misra-c2012-17.2"@
    } else if i == 96 {
        "misra-c2012-17.3"@
    } else if i == 97 {
        "misra-c2012-17.4"@
    } else if i == 98 {
        "misra-c2012-17.5"@
    } else if i == 99 {
        "misra-c2012-17.6"@
    } else if i == 100 {
        "misra-c2012-17.7"@
    } else if i == 101 {
        "misra-c2012-17.8"@
    } else if i == 102 {
        "misra-c2012-18.1"@
    } else if i == 103 {
        "misra-c2012-18.2"@
    } else if i == 104 {
        "misra-c2012-18.3"@
    } else if i == 105 {
        "misra-c2012-18.4"@
    } else if i == 106 {
        "misra-c2012-18.5"@
    } else if i == 107 {
        "misra-c2012-18.6"@
    } else if i == 108 {
        "misra-c2012-18.7"@
    } else if i == 109 {
        "misra-c2012-18.8"@
    } else if i == 110 {
        "misra-c2012-19.1"@
    } else if i == 111 {
        "misra-c2012-19.2"@
    } else if i == 112 {
        "misra-c2012-20.1"@
    } else if i == 113 {
        "misra-c2012-20.2"@
    } else if i == 114 {
        "misra-c2012-20.3"@
    } else if i == 115 {
        "misra-c2012-20.4"@
    } else if i == 116 {
        "misra-c2012-20.5"@
    } else if i == 117 {
        "misra-c2012-20.6"@
    } else if i == 118 {
        "misra-c2012-20.7"@
    } else if i == 119 {
        "misra-c2012-20.8"@
    } else {
        Seq::empty()
    }
}

/// Positions 120 to 159 of the table.
pub open spec fn rule_id_3(i: int) -> Seq<char> {
    if i == 120 {
        "misra-c2012-20.9"@
    } else if i == 121 {
        "misra-c2012-20.10"@
    } else if i == 122 {
        "misra-c2012-20.11"@
    } else if i == 123 {
        "misra-c2012-20.12"@
    } else if i == 124 {
        "misra-c2012-20.13"@
    } else if i == 125 {
        "misra-c2012-20.14"@
    } else if i == 126 {
        "misra-c2012-21.1"@
    } else if i == 127 {
        "misra-c2012-21.2"@
    } else if i == 128 {
        "misra-c2012-21.3"@
    } else if i == 129 {
        "misra-c2012-21.4"@
    } else if i == 130 {
        "misra-c2012-21.5"@
    } else if i == 131 {
        "misra-c2012-21.6"@
    } else if i == 132 {
        "misra-c2012-21.7"@
    } else if i == 133 {
        "misra-c2012-21.8"@
    } else if i == 134 {
        "misra-c2012-21.9"@
    } else if i == 135 {
        "misra-c2012-21.10"@
    } else if i == 136 {
        "misra-c2012-21.11"@
    } else if i == 137 {
        "misra-c2012-21.12"@
    } else if i == 138 {
        "misra-c2012-21.13"@
    } else if i == 139 {
        "misra-c2012-21.14"@
    } else if i == 140 {
        "misra-c2012-21.15"@
    } else if i == 141 {
        "misra-c2012-21.16"@
    } else if i == 142 {
        "misra-c2012-21.17"@
    } else if i == 143 {
        "misra-c2012-21.18"@
    } else if i == 144 {
        "misra-c2012-21.19"@
    } else if i == 145 {
        "misra-c2012-21.20"@
    } else if i == 146 {
        "misra-c2012-21.21"@
    } else if i == 147 {
        "misra-c2012-22.1"@
    } else if i == 148 {
        "misra-c2012-22.2"@
    } else if i == 149 {
        "misra-c2012-22.3"@
    } else if i == 150 {
        "misra-c2012-22.4"@
    } else if i == 151 {
        "misra-c2012-22.5"@
    } else if i == 152 {
        "misra-c2012-22.6"@
    } else if i == 153 {
        "misra-c2012-22.7"@
    } else if i == 154 {
        "misra-c2012-22.8"@
    } else if i == 155 {
        "misra-c2012-22.9"@
    } else if i == 156 {
        "misra-c2012-22.10"@
    } else if i == 157 {
        "purgedConfiguration"@
    } else if i == 158 {
        "toomanyconfigs"@
    } else if i == 159 {
        "AssignmentAddressToInteger"@
    } else {
        Seq::empty()
    }
}

/// Positions 160 to 199 of the table.
pub open spec fn rule_id_4(i: int) -> Seq<char> {
    if i == 160 {
        "AssignmentIntegerToAddress"@
    } else if i == 161 {
        "CastIntegerToAddressAtReturn"@
    } else if i == 162 {
        "CastAddressToIntegerAtReturn"@
    } else if i == 163 {
        "assertWithSideEffect"@
    } else if i == 164 {
        "assignmentInAssert"@
    } else if i == 165 {
        "autoVariables"@
    } else if i == 166 {
        "returnReference"@
    } else if i == 167 {
        "danglingReference"@
    } else if i == 168 {
        "returnTempReference"@
    } else if i == 169 {
        "danglingTempReference"@
    } else if i == 170 {
        "autovarInvalidDeallocation"@
    } else if i == 171 {
        "uselessAssignmentArg"@
    } else if i == 172 {
        "uselessAssignmentPtrArg"@
    } else if i == 173 {
        "returnDanglingLifetime"@
    } else if i == 174 {
        "invalidLifetime"@
    } else if i == 175 {
        "danglingLifetime"@
    } else if i == 176 {
        "danglingTemporaryLifetime"@
    } else if i == 177 {
        "assignBoolToPointer"@
    } else if i == 178 {
        "assignBoolToFloat"@
    } else if i == 179 {
        "comparisonOfFuncReturningBoolError"@
    } else if i == 180 {
        "comparisonOfTwoFuncsReturningBoolError"@
    } else if i == 181 {
        "comparisonOfBoolWithBoolError"@
    } else if i == 182 {
        "incrementboolean"@
    } else if i == 183 {
        "bitwiseOnBoolean"@
    } else if i == 184 {
        "compareBoolExpressionWithInt"@
    } else if i == 185 {
        "pointerArithBool"@
    } else if i == 186 {
        "comparisonOfBoolWithInvalidComparator"@
    } else if i == 187 {
        "returnNonBoolInBooleanFunction"@
    } else if i == 188 {
        "boostForeachError"@
    } else if i == 189 {
        "arrayIndexOutOfBounds"@
    } else if i == 190 {
        "arrayIndexOutOfBoundsCond"@
    } else if i == 191 {
        "pointerOutOfBounds"@
    } else if i == 192 {
        "negativeIndex"@
    } else if i == 193 {
        "arrayIndexThenCheck"@
    } else if i == 194 {
        "bufferAccessOutOfBounds"@
    } else if i == 195 {
        "objectIndex"@
    } else if i == 196 {
        "argumentSize"@
    } else if i == 197 {
        "negativeMemoryAllocationSize"@
    } else if i == 198 {
        "negativeArraySize"@
    } else if i == 199 {
        "invalidFunctionArg"@
    } else {
        Seq::empty()
    }
}

/// Positions 200 to 239 of the table.
pub open spec fn rule_id_5(i: int) -> Seq<char> {
    if i == 200 {
        "invalidFunctionArgBool"@
    } else if i == 201 {
        "invalidFunctionArgStr"@
    } else if i == 202 {
        "ignoredReturnValue"@
    } else if i == 203 {
        "wrongmathcall"@
    } else if i == 204 {
        "unpreciseMathCall"@
    } else if i == 205 {
        "memsetZeroBytes"@
    } else if i == 206 {
        "memsetFloat"@
    } else if i == 207 {
        "memsetValueOutOfRange"@
    } else if i == 208 {
        "missingReturn"@
    } else if i == 209 {
        "returnStdMoveLocal"@
    } else if i == 210 {
        "useStandardLibrary"@
    } else if i == 211 {
        "noConstructor"@
    } else if i == 212 {
        "noExplicitConstructor"@
    } else if i == 213 {
        "copyCtorPointerCopying"@
    } else if i == 214 {
        "noCopyConstructor"@
    } else if i == 215 {
        "noOperatorEq"@
    } else if i == 216 {
        "noDestructor"@
    } else if i == 217 {
        "uninitMemberVar"@
    } else if i == 218 {
        "uninitMemberVarPrivate"@
    } else if i == 219 {
        "uninitDerivedMemberVar"@
    } else if i == 220 {
        "uninitDerivedMemberVarPrivate"@
    } else if i == 221 {
        "missingMemberCopy"@
    } else if i == 222 {
        "operatorEqVarError"@
    } else if i == 223 {
        "unusedPrivateFunction"@
    } else if i == 224 {
        "memsetClass"@
    } else if i == 225 {
        "memsetClassReference"@
    } else if i == 226 {
        "memsetClassFloat"@
    } else if i == 227 {
        "mallocOnClassWarning"@
    } else if i == 228 {
        "mallocOnClassError"@
    } else if i == 229 {
        "virtualDestructor"@
    } else if i == 230 {
        "thisSubtraction"@
    } else if i == 231 {
        "operatorEqRetRefThis"@
    } else if i == 232 {
        "operatorEqMissingReturnStatement"@
    } else if i == 233 {
        "operatorEqShouldBeLeftUnimplemented"@
    } else if i == 234 {
        "operatorEqToSelf"@
    } else if i == 235 {
        "functionConst"@
    } else if i == 236 {
        "functionStatic"@
    } else if i == 237 {
        "initializerList"@
    } else if i == 238 {
        "useInitializationList"@
    } else if i == 239 {
        "selfInitialization"@
    } else {
        Seq::empty()
    }
}

/// Positions 240 to 279 of the table.
pub open spec fn rule_id_6(i: int) -> Seq<char> {
    if i == 240 {
        "duplInheritedMember"@
    } else if i == 241 {
        "copyCtorAndEqOperator"@
    } else if i == 242 {
        "pureVirtualCall"@
    } else if i == 243 {
        "virtualCallInConstructor"@
    } else if i == 244 {
        "missingOverride"@
    } else if i == 245 {
        "thisUseAfterFree"@
    } else if i == 246 {
        "unsafeClassRefMember"@
    } else if i == 247 {
        "assignIfError"@
    } else if i == 248 {
        "badBitmaskCheck"@
    } else if i == 249 {
        "comparisonError"@
    } else if i == 250 {
        "duplicateCondition"@
    } else if i == 251 {
        "multiCondition"@
    } else if i == 252 {
        "mismatchingBitAnd"@
    } else if i == 253 {
        "oppositeInnerCondition"@
    } else if i == 254 {
        "identicalInnerCondition"@
    } else if i == 255 {
        "identicalConditionAfterEarlyExit"@
    } else if i == 256 {
        "incorrectLogicOperator"@
    } else if i == 257 {
        "redundantCondition"@
    } else if i == 258 {
        "moduloAlwaysTrueFalse"@
    } else if i == 259 {
        "clarifyCondition"@
    } else if i == 260 {
        "knownConditionTrueFalse"@
    } else if i == 261 {
        "invalidTestForOverflow"@
    } else if i == 262 {
        "pointerAdditionResultNotNull"@
    } else if i == 263 {
        "duplicateConditionalAssign"@
    } else if i == 264 {
        "assignmentInCondition"@
    } else if i == 265 {
        "compareValueOutOfTypeRangeError"@
    } else if i == 266 {
        "exceptThrowInDestructor"@
    } else if i == 267 {
        "exceptDeallocThrow"@
    } else if i == 268 {
        "exceptRethrowCopy"@
    } else if i == 269 {
        "catchExceptionByValue"@
    } else if i == 270 {
        "throwInNoexceptFunction"@
    } else if i == 271 {
        "unhandledExceptionSpecification"@
    } else if i == 272 {
        "rethrowNoCurrentException"@
    } else if i == 273 {
        "coutCerrMisusage"@
    } else if i == 274 {
        "fflushOnInputStream"@
    } else if i == 275 {
        "IOWithoutPositioning"@
    } else if i == 276 {
        "readWriteOnlyFile"@
    } else if i == 277 {
        "writeReadOnlyFile"@
    } else if i == 278 {
        "useClosedFile"@
    } else if i == 279 {
        "seekOnAppendedFile"@
    } else {
        Seq::empty()
    }
}

/// Positions 280 to 319 of the table.
pub open spec fn rule_id_7(i: int) -> Seq<char> {
    if i == 280 {
        "incompatibleFileOpen"@
    } else if i == 281 {
        "invalidscanf"@
    } else if i == 282 {
        "wrongPrintfScanfArgNum"@
    } else if i == 283 {
        "invalidScanfArgType_s"@
    } else if i == 284 {
        "invalidScanfArgType_int"@
    } else if i == 285 {
        "invalidScanfArgType_float"@
    } else if i == 286 {
        "invalidPrintfArgType_s"@
    } else if i == 287 {
        "invalidPrintfArgType_n"@
    } else if i == 288 {
        "invalidPrintfArgType_p"@
    } else if i == 289 {
        "invalidPrintfArgType_uint"@
    } else if i == 290 {
        "invalidPrintfArgType_sint"@
    } else if i == 291 {
        "invalidPrintfArgType_float"@
    } else if i == 292 {
        "invalidLengthModifierError"@
    } else if i == 293 {
        "invalidScanfFormatWidth"@
    } else if i == 294 {
        "invalidScanfFormatWidth_smaller"@
    } else if i == 295 {
        "wrongPrintfScanfParameterPositionError"@
    } else if i == 296 {
        "deallocret"@
    } else if i == 297 {
        "doubleFree"@
    } else if i == 298 {
        "leakNoVarFunctionCall"@
    } else if i == 299 {
        "leakReturnValNotUsed"@
    } else if i == 300 {
        "leakUnsafeArgAlloc"@
    } else if i == 301 {
        "publicAllocationError"@
    } else if i == 302 {
        "unsafeClassCanLeak"@
    } else if i == 303 {
        "memleak"@
    } else if i == 304 {
        "resourceLeak"@
    } else if i == 305 {
        "deallocuse"@
    } else if i == 306 {
        "mismatchAllocDealloc"@
    } else if i == 307 {
        "memleakOnRealloc"@
    } else if i == 308 {
        "nullPointer"@
    } else if i == 309 {
        "nullPointerDefaultArg"@
    } else if i == 310 {
        "nullPointerRedundantCheck"@
    } else if i == 311 {
        "nullPointerArithmetic"@
    } else if i == 312 {
        "nullPointerArithmeticRedundantCheck"@
    } else if i == 313 {
        "zerodiv"@
    } else if i == 314 {
        "zerodivcond"@
    } else if i == 315 {
        "unusedScopedObject"@
    } else if i == 316 {
        "invalidPointerCast"@
    } else if i == 317 {
        "shiftNegativeLHS"@
    } else if i == 318 {
        "shiftNegative"@
    } else if i == 319 {
        "raceAfterInterlockedDecrement"@
    } else {
        Seq::empty()
    }
}

/// Positions 320 to 359 of the table.
pub open spec fn rule_id_8(i: int) -> Seq<char> {
    if i == 320 {
        "invalidFree"@
    } else if i == 321 {
        "overlappingWriteUnion"@
    } else if i == 322 {
        "overlappingWriteFunction"@
    } else if i == 323 {
        "redundantCopyLocalConst"@
    } else if i == 324 {
        "redundantCopy"@
    } else if i == 325 {
        "comparisonFunctionIsAlwaysTrueOrFalse"@
    } else if i == 326 {
        "checkCastIntToCharAndBack"@
    } else if i == 327 {
        "cstyleCast"@
    } else if i == 328 {
        "passedByValue"@
    } else if i == 329 {
        "constParameter"@
    } else if i == 330 {
        "constVariable"@
    } else if i == 331 {
        "constParameterCallback"@
    } else if i == 332 {
        "constStatement"@
    } else if i == 333 {
        "signedCharArrayIndex"@
    } else if i == 334 {
        "unknownSignCharArrayIndex"@
    } else if i == 335 {
        "charBitOp"@
    } else if i == 336 {
        "variableScope"@
    } else if i == 337 {
        "redundantAssignInSwitch"@
    } else if i == 338 {
        "suspiciousCase"@
    } else if i == 339 {
        "selfAssignment"@
    } else if i == 340 {
        "clarifyCalculation"@
    } else if i == 341 {
        "clarifyStatement"@
    } else if i == 342 {
        "duplicateBranch"@
    } else if i == 343 {
        "duplicateAssignExpression"@
    } else if i == 344 {
        "oppositeExpression"@
    } else if i == 345 {
        "duplicateExpression"@
    } else if i == 346 {
        "duplicateValueTernary"@
    } else if i == 347 {
        "duplicateExpressionTernary"@
    } else if i == 348 {
        "duplicateBreak"@
    } else if i == 349 {
        "unreachableCode"@
    } else if i == 350 {
        "unsignedLessThanZero"@
    } else if i == 351 {
        "unsignedPositive"@
    } else if i == 352 {
        "pointerLessThanZero"@
    } else if i == 353 {
        "pointerPositive"@
    } else if i == 354 {
        "suspiciousSemicolon"@
    } else if i == 355 {
        "incompleteArrayFill"@
    } else if i == 356 {
        "varFuncNullUB"@
    } else if i == 357 {
        "nanInArithmeticExpression"@
    } else if i == 358 {
        "commaSeparatedReturn"@
    } else if i == 359 {
        "redundantPointerOp"@
    } else {
        Seq::empty()
    }
}

/// Positions 360 to 399 of the table.
pub open spec fn rule_id_9(i: int) -> Seq<char> {
    if i == 360 {
        "unusedLabel"@
    } else if i == 361 {
        "unusedLabelConfiguration"@
    } else if i == 362 {
        "unusedLabelSwitch"@
    } else if i == 363 {
        "unusedLabelSwitchConfiguration"@
    } else if i == 364 {
        "unknownEvaluationOrder"@
    } else if i == 365 {
        "accessMoved"@
    } else if i == 366 {
        "accessForwarded"@
    } else if i == 367 {
        "funcArgNamesDifferent"@
    } else if i == 368 {
        "redundantBitwiseOperationInSwitch"@
    } else if i == 369 {
        "shadowVariable"@
    } else if i == 370 {
        "shadowFunction"@
    } else if i == 371 {
        "shadowArgument"@
    } else if i == 372 {
        "knownArgument"@
    } else if i == 373 {
        "knownArgumentHiddenVariableExpression"@
    } else if i == 374 {
        "comparePointers"@
    } else if i == 375 {
        "redundantAssignment"@
    } else if i == 376 {
        "redundantInitialization"@
    } else if i == 377 {
        "funcArgOrderDifferent"@
    } else if i == 378 {
        "moduloofone"@
    } else if i == 379 {
        "containerOutOfBounds"@
    } else if i == 380 {
        "invalidIterator1"@
    } else if i == 381 {
        "iterators1"@
    } else if i == 382 {
        "iterators2"@
    } else if i == 383 {
        "iterators3"@
    } else if i == 384 {
        "invalidContainerLoop"@
    } else if i == 385 {
        "invalidContainer"@
    } else if i == 386 {
        "mismatchingContainerIterator"@
    } else if i == 387 {
        "mismatchingContainers"@
    } else if i == 388 {
        "mismatchingContainerExpression"@
    } else if i == 389 {
        "sameIteratorExpression"@
    } else if i == 390 {
        "eraseDereference"@
    } else if i == 391 {
        "stlOutOfBounds"@
    } else if i == 392 {
        "negativeContainerIndex"@
    } else if i == 393 {
        "stlBoundaries"@
    } else if i == 394 {
        "stlIfFind"@
    } else if i == 395 {
        "stlIfStrFind"@
    } else if i == 396 {
        "stlFindInsert"@
    } else if i == 397 {
        "stlcstr"@
    } else if i == 398 {
        "stlcstrReturn"@
    } else if i == 399 {
        "stlcstrParam"@
    } else {
        Seq::empty()
    }
}

/// Positions 400 to 439 of the table.
pub open spec fn rule_id_10(i: int) -> Seq<char> {
    if i == 400 {
        "stlcstrthrow"@
    } else if i == 401 {
        "stlSize"@
    } else if i == 402 {
        "StlMissingComparison"@
    } else if i == 403 {
        "redundantIfRemove"@
    } else if i == 404 {
        "uselessCallsCompare"@
    } else if i == 405 {
        "uselessCallsSwap"@
    } else if i == 406 {
        "uselessCallsSubstr"@
    } else if i == 407 {
        "uselessCallsEmpty"@
    } else if i == 408 {
        "uselessCallsRemove"@
    } else if i == 409 {
        "derefInvalidIterator"@
    } else if i == 410 {
        "useStlAlgorithm"@
    } else if i == 411 {
        "knownEmptyContainer"@
    } else if i == 412 {
        "globalLockGuard"@
    } else if i == 413 {
        "localMutex"@
    } else if i == 414 {
        "sizeofwithsilentarraypointer"@
    } else if i == 415 {
        "pointerSize"@
    } else if i == 416 {
        "sizeofDivisionMemfunc"@
    } else if i == 417 {
        "sizeofwithnumericparameter"@
    } else if i == 418 {
        "sizeofsizeof"@
    } else if i == 419 {
        "sizeofCalculation"@
    } else if i == 420 {
        "sizeofFunctionCall"@
    } else if i == 421 {
        "multiplySizeof"@
    } else if i == 422 {
        "divideSizeof"@
    } else if i == 423 {
        "sizeofVoid"@
    } else if i == 424 {
        "sizeofDereferencedVoidPointer"@
    } else if i == 425 {
        "arithOperationsOnVoidPointer"@
    } else if i == 426 {
        "stringLiteralWrite"@
    } else if i == 427 {
        "sprintfOverlappingData"@
    } else if i == 428 {
        "strPlusChar"@
    } else if i == 429 {
        "incorrectStringCompare"@
    } else if i == 430 {
        "literalWithCharPtrCompare"@
    } else if i == 431 {
        "charLiteralWithCharPtrCompare"@
    } else if i == 432 {
        "incorrectStringBooleanError"@
    } else if i == 433 {
        "incorrectCharBooleanError"@
    } else if i == 434 {
        "staticStringCompare"@
    } else if i == 435 {
        "stringCompare"@
    } else if i == 436 {
        "overlappingStrcmp"@
    } else if i == 437 {
        "shiftTooManyBits"@
    } else if i == 438 {
        "shiftTooManyBitsSigned"@
    } else if i == 439 {
        "integerOverflow"@
    } else {
        Seq::empty()
    }
}

/// Positions 440 to 461 of the table.
pub open spec fn rule_id_11(i: int) -> Seq<char> {
    if i == 440 {
        "signConversion"@
    } else if i == 441 {
        "truncLongCastAssignment"@
    } else if i == 442 {
        "truncLongCastReturn"@
    } else if i == 443 {
        "floatConversionOverflow"@
    } else if i == 444 {
        "uninitdata"@
    } else if i == 445 {
        "uninitStructMember"@
    } else if i == 446 {
        "unusedFunction"@
    } else if i == 447 {
        "unusedVariable"@
    } else if i == 448 {
        "unusedAllocatedMemory"@
    } else if i == 449 {
        "unreadVariable"@
    } else if i == 450 {
        "unassignedVariable"@
    } else if i == 451 {
        "unusedStructMember"@
    } else if i == 452 {
        "postfixOperator"@
    } else if i == 453 {
        "va_start_wrongParameter"@
    } else if i == 454 {
        "va_start_referencePassed"@
    } else if i == 455 {
        "va_end_missing"@
    } else if i == 456 {
        "va_list_usedBeforeStarted"@
    } else if i == 457 {
        "va_start_subsequentCalls"@
    } else if i == 458 {
        "missingInclude"@
    } else if i == 459 {
        "missingIncludeSystem"@
    } else if i == 460 {
        "ConfigurationNotChecked"@
    } else if i == 461 {
        "preprocessorErrorDirective"@
    } else {
        Seq::empty()
    }
}

fn rule_id_text_0(i: usize) -> (r: &'static str)
    requires
        0 <= i < 40,
    ensures
        r@ == rule_id(i as int),
{
    match i {
        0 => "misra-c2012-1.1",
        1 => "misra-c2012-1.2",
        2 => "misra-c2012-1.3",
        3 => "misra-c2012-1.4",
        4 => "misra-c2012-2.1",
        5 => "misra-c2012-2.2",
        6 => "misra-c2012-2.3",
        7 => "misra-c2012-2.4",
        8 => "misra-c2012-2.5",
        9 => "misra-c2012-2.6",
        10 => "misra-c2012-2.7",
        11 => "misra-c2012-3.1",
        12 => "misra-c2012-3.2",
        13 => "misra-c2012-4.1",
        14 => "misra-c2012-4.2",
        15 => "misra-c2012-5.1",
        16 => "misra-c2012-5.2",
        17 => "misra-c2012-5.3",
        18 => "misra-c2012-5.4",
        19 => "misra-c2012-5.5",
        20 => "misra-c2012-5.6",
        21 => "misra-c2012-5.7",
        22 => "misra-c2012-5.8",
        23 => "misra-c2012-5.9",
        24 => "misra-c2012-6.1",
        25 => "misra-c2012-6.2",
        26 => "misra-c2012-7.1",
        27 => "misra-c2012-7.2",
        28 => "misra-c2012-7.3",
        29 => "misra-c2012-7.4",
        30 => "misra-c2012-8.1",
        31 => "misra-c2012-8.2",
        32 => "misra-c2012-8.3",
        33 => "misra-c2012-8.4",
        34 => "misra-c2012-8.5",
        35 => "misra-c2012-8.6",
        36 => "misra-c2012-8.7",
        37 => "misra-c2012-8.8",
        38 => "misra-c2012-8.9",
        _ => "misra-c2012-8.10",
    }
}

fn rule_id_text_1(i: usize) -> (r: &'static str)
    requires
        40 <= i < 80,
    ensures
        r@ == rule_id(i as int),
{
    match i {
        40 => "misra-c2012-8.11",
        41 => "misra-c2012-8.12",
        42 => "misra-c2012-8.13",
        43 => "misra-c2012-8.14",
        44 => "misra-c2012-9.1",
        45 => "misra-c2012-9.2",
        46 => "misra-c2012-9.3",
        47 => "misra-c2012-9.4",
        48 => "misra-c2012-9.5",
        49 => "misra-c2012-10.1",
        50 => "misra-c2012-10.2",
        51 => "misra-c2012-10.3",
        52 => "misra-c2012-10.4",
        53 => "misra-c2012-10.5",
        54 => "misra-c2012-10.6",
        55 => "misra-c2012-10.7",
        56 => "misra-c2012-10.8",
        57 => "misra-c2012-11.1",
        58 => "misra-c2012-11.2",
        59 => "misra-c2012-11.3",
        60 => "misra-c2012-11.4",
        61 => "misra-c2012-11.5",
        62 => "misra-c2012-11.6",
        63 => "misra-c2012-11.7",
        64 => "misra-c2012-11.8",
        65 => "misra-c2012-11.9",
        66 => "misra-c2012-12.1",
        67 => "misra-c2012-12.2",
        68 => "misra-c2012-12.3",
        69 => "misra-c2012-12.4",
        70 => "misra-c2012-13.1",
        71 => "misra-c2012-13.2",
        72 => "misra-c2012-13.3",
        73 => "misra-c2012-13.4",
        74 => "misra-c2012-13.5",
        75 => "misra-c2012-13.6",
        76 => "misra-c2012-14.1",
        77 => "misra-c2012-14.2",
        78 => "misra-c2012-14.3",
        _ => "misra-c2012-14.4",
    }
}

fn rule_id_text_2(i: usize) -> (r: &'static str)
    requires
        80 <= i < 120,
    ensures
        r@ == rule_id(i as int),
{
    match i {
        80 => "misra-c2012-15.1",
        81 => "misra-c2012-15.2",
        82 => "misra-c2012-15.3",
        83 => "misra-c2012-15.4",
        84 => "misra-c2012-15.5",
        85 => "misra-c2012-15.6",
        86 => "misra-c2012-15.7",
        87 => "misra-c2012-16.1",
        88 => "misra-c2012-16.2",
        89 => "misra-c2012-16.3",
        90 => "misra-c2012-16.4",
        91 => "misra-c2012-16.5",
        92 => "misra-c2012-16.6",
        93 => "misra-c2012-16.7",
        94 => "misra-c2012-17.1",
        95 => "misra-c2012-17.2",
        96 => "misra-c2012-17.3",
        97 => "misra-c2012-17.4",
        98 => "misra-c2012-17.5",
        99 => "misra-c2012-17.6",
        100 => "misra-c2012-17.7",
        101 => "misra-c2012-17.8",
        102 => "misra-c2012-18.1",
        103 => "misra-c2012-18.2",
        104 => "misra-c2012-18.3",
        105 => "misra-c2012-18.4",
        106 => "misra-c2012-18.5",
        107 => "misra-c2012-18.6",
        108 => "misra-c2012-18.7",
        109 => "misra-c2012-18.8",
        110 => "misra-c2012-19.1",
        111 => "misra-c2012-19.2",
        112 => "misra-c2012-20.1",
        113 => "misra-c2012-20.2",
        114 => "misra-c2012-20.3",
        115 => "misra-c2012-20.4",
        116 => "misra-c2012-20.5",
        117 => "misra-c2012-20.6",
        118 => "misra-c2012-20.7",
        _ => "misra-c2012-20.8",
    }
}

fn rule_id_text_3(i: usize) -> (r: &'static str)
    requires
        120 <= i < 160,
    ensures
        r@ == rule_id(i as int),
{
    match i {
        120 => "misra-c2012-20.9",
        121 => "misra-c2012-20.10",
        122 => "misra-c2012-20.11",
        123 => "misra-c2012-20.12",
        124 => "misra-c2012-20.13",
        125 => "misra-c2012-20.14",
        126 => "misra-c2012-21.1",
        127 => "misra-c2012-21.2",
        128 => "misra-c2012-21.3",
        129 => "misra-c2012-21.4",
        130 => "misra-c2012-21.5",
        131 => "misra-c2012-21.6",
        132 => "misra-c2012-21.7",
        133 => "misra-c2012-21.8",
        134 => "misra-c2012-21.9",
        135 => "misra-c2012-21.10",
        136 => "misra-c2012-21.11",
        137 => "misra-c2012-21.12",
        138 => "misra-c2012-21.13",
        139 => "misra-c2012-21.14",
        140 => "misra-c2012-21.15",
        141 => "misra-c2012-21.16",
        142 => "misra-c2012-21.17",
        143 => "misra-c2012-21.18",
        144 => "misra-c2012-21.19",
        145 => "misra-c2012-21.20",
        146 => "misra-c2012-21.21",
        147 => "misra-c2012-22.1",
        148 => "misra-c2012-22.2",
        149 => "misra-c2012-22.3",
        150 => "misra-c2012-22.4",
        151 => "misra-c2012-22.5",
        152 => "misra-c2012-22.6",
        153 => "misra-c2012-22.7",
        154 => "misra-c2012-22.8",
        155 => "misra-c2012-22.9",
        156 => "misra-c2012-22.10",
        157 => "purgedConfiguration",
        158 => "toomanyconfigs",
        _ => "AssignmentAddressToInteger",
    }
}

fn rule_id_text_4(i: usize) -> (r: &'static str)
    requires
        160 <= i < 200,
    ensures
        r@ == rule_id(i as int),
{
    match i {
        160 => "AssignmentIntegerToAddress",
        161 => "CastIntegerToAddressAtReturn",
        162 => "CastAddressToIntegerAtReturn",
        163 => "assertWithSideEffect",
        164 => "assignmentInAssert",
        165 => "autoVariables",
        166 => "returnReference",
        167 => "danglingReference",
        168 => "returnTempReference",
        169 => "danglingTempReference",
        170 => "autovarInvalidDeallocation",
        171 => "uselessAssignmentArg",
        172 => "uselessAssignmentPtrArg",
        173 => "returnDanglingLifetime",
        174 => "invalidLifetime",
        175 => "danglingLifetime",
        176 => "danglingTemporaryLifetime",
        177 => "assignBoolToPointer",
        178 => "assignBoolToFloat",
        179 => "comparisonOfFuncReturningBoolError",
        180 => "comparisonOfTwoFuncsReturningBoolError",
        181 => "comparisonOfBoolWithBoolError",
        182 => "incrementboolean",
        183 => "bitwiseOnBoolean",
        184 => "compareBoolExpressionWithInt",
        185 => "pointerArithBool",
        186 => "comparisonOfBoolWithInvalidComparator",
        187 => "returnNonBoolInBooleanFunction",
        188 => "boostForeachError",
        189 => "arrayIndexOutOfBounds",
        190 => "arrayIndexOutOfBoundsCond",
        191 => "pointerOutOfBounds",
        192 => "negativeIndex",
        193 => "arrayIndexThenCheck",
        194 => "bufferAccessOutOfBounds",
        195 => "objectIndex",
        196 => "argumentSize",
        197 => "negativeMemoryAllocationSize",
        198 => "negativeArraySize",
        _ => "invalidFunctionArg",
    }
}

fn rule_id_text_5(i: usize) -> (r: &'static str)
    requires
        200 <= i < 240,
    ensures
        r@ == rule_id(i as int),
{
    match i {
        200 => "invalidFunctionArgBool",
        201 => "invalidFunctionArgStr",
        202 => "ignoredReturnValue",
        203 => "wrongmathcall",
        204 => "unpreciseMathCall",
        205 => "memsetZeroBytes",
        206 => "memsetFloat",
        207 => "memsetValueOutOfRange",
        208 => "missingReturn",
        209 => "returnStdMoveLocal",
        210 => "useStandardLibrary",
        211 => "noConstructor",
        212 => "noExplicitConstructor",
        213 => "copyCtorPointerCopying",
        214 => "noCopyConstructor",
        215 => "noOperatorEq",
        216 => "noDestructor",
        217 => "uninitMemberVar",
        218 => "uninitMemberVarPrivate",
        219 => "uninitDerivedMemberVar",
        220 => "uninitDerivedMemberVarPrivate",
        221 => "missingMemberCopy",
        222 => "operatorEqVarError",
        223 => "unusedPrivateFunction",
        224 => "memsetClass",
        225 => "memsetClassReference",
        226 => "memsetClassFloat",
        227 => "mallocOnClassWarning",
        228 => "mallocOnClassError",
        229 => "virtualDestructor",
        230 => "thisSubtraction",
        231 => "operatorEqRetRefThis",
        232 => "operatorEqMissingReturnStatement",
        233 => "operatorEqShouldBeLeftUnimplemented",
        234 => "operatorEqToSelf",
        235 => "functionConst",
        236 => "functionStatic",
        237 => "initializerList",
        238 => "useInitializationList",
        _ => "selfInitialization",
    }
}

fn rule_id_text_6(i: usize) -> (r: &'static str)
    requires
        240 <= i < 280,
    ensures
        r@ == rule_id(i as int),
{
    match i {
        240 => "duplInheritedMember",
        241 => "copyCtorAndEqOperator",
        242 => "pureVirtualCall",
        243 => "virtualCallInConstructor",
        244 => "missingOverride",
        245 => "thisUseAfterFree",
        246 => "unsafeClassRefMember",
        247 => "assignIfError",
        248 => "badBitmaskCheck",
        249 => "comparisonError",
        250 => "duplicateCondition",
        251 => "multiCondition",
        252 => "mismatchingBitAnd",
        253 => "oppositeInnerCondition",
        254 => "identicalInnerCondition",
        255 => "identicalConditionAfterEarlyExit",
        256 => "incorrectLogicOperator",
        257 => "redundantCondition",
        258 => "moduloAlwaysTrueFalse",
        259 => "clarifyCondition",
        260 => "knownConditionTrueFalse",
        261 => "invalidTestForOverflow",
        262 => "pointerAdditionResultNotNull",
        263 => "duplicateConditionalAssign",
        264 => "assignmentInCondition",
        265 => "compareValueOutOfTypeRangeError",
        266 => "exceptThrowInDestructor",
        267 => "exceptDeallocThrow",
        268 => "exceptRethrowCopy",
        269 => "catchExceptionByValue",
        270 => "throwInNoexceptFunction",
        271 => "unhandledExceptionSpecification",
        272 => "rethrowNoCurrentException",
        273 => "coutCerrMisusage",
        274 => "fflushOnInputStream",
        275 => "IOWithoutPositioning",
        276 => "readWriteOnlyFile",
        277 => "writeReadOnlyFile",
        278 => "useClosedFile",
        _ => "seekOnAppendedFile",
    }
}

fn rule_id_text_7(i: usize) -> (r: &'static str)
    requires
        280 <= i < 320,
    ensures
        r@ == rule_id(i as int),
{
    match i {
        280 => "incompatibleFileOpen",
        281 => "invalidscanf",
        282 => "wrongPrintfScanfArgNum",
        283 => "invalidScanfArgType_s",
        284 => "invalidScanfArgType_int",
        285 => "invalidScanfArgType_float",
        286 => "invalidPrintfArgType_s",
        287 => "invalidPrintfArgType_n",
        288 => "invalidPrintfArgType_p",
        289 => "invalidPrintfArgType_uint",
        290 => "invalidPrintfArgType_sint",
        291 => "invalidPrintfArgType_float",
        292 => "invalidLengthModifierError",
        293 => "invalidScanfFormatWidth",
        294 => "invalidScanfFormatWidth_smaller",
        295 => "wrongPrintfScanfParameterPositionError",
        296 => "deallocret",
        297 => "doubleFree",
        298 => "leakNoVarFunctionCall",
        299 => "leakReturnValNotUsed",
        300 => "leakUnsafeArgAlloc",
        301 => "publicAllocationError",
        302 => "unsafeClassCanLeak",
        303 => "memleak",
        304 => "resourceLeak",
        305 => "deallocuse",
        306 => "mismatchAllocDealloc",
        307 => "memleakOnRealloc",
        308 => "nullPointer",
        309 => "nullPointerDefaultArg",
        310 => "nullPointerRedundantCheck",
        311 => "nullPointerArithmetic",
        312 => "nullPointerArithmeticRedundantCheck",
        313 => "zerodiv",
        314 => "zerodivcond",
        315 => "unusedScopedObject",
        316 => "invalidPointerCast",
        317 => "shiftNegativeLHS",
        318 => "shiftNegative",
        _ => "raceAfterInterlockedDecrement",
    }
}

fn rule_id_text_8(i: usize) -> (r: &'static str)
    requires
        320 <= i < 360,
    ensures
        r@ == rule_id(i as int),
{
    match i {
        320 => "invalidFree",
        321 => "overlappingWriteUnion",
        322 => "overlappingWriteFunction",
        323 => "redundantCopyLocalConst",
        324 => "redundantCopy",
        325 => "comparisonFunctionIsAlwaysTrueOrFalse",
        326 => "checkCastIntToCharAndBack",
        327 => "cstyleCast",
        328 => "passedByValue",
        329 => "constParameter",
        330 => "constVariable",
        331 => "constParameterCallback",
        332 => "constStatement",
        333 => "signedCharArrayIndex",
        334 => "unknownSignCharArrayIndex",
        335 => "charBitOp",
        336 => "variableScope",
        337 => "redundantAssignInSwitch",
        338 => "suspiciousCase",
        339 => "selfAssignment",
        340 => "clarifyCalculation",
        341 => "clarifyStatement",
        342 => "duplicateBranch",
        343 => "duplicateAssignExpression",
        344 => "oppositeExpression",
        345 => "duplicateExpression",
        346 => "duplicateValueTernary",
        347 => "duplicateExpressionTernary",
        348 => "duplicateBreak",
        349 => "unreachableCode",
        350 => "unsignedLessThanZero",
        351 => "unsignedPositive",
        352 => "pointerLessThanZero",
        353 => "pointerPositive",
        354 => "suspiciousSemicolon",
        355 => "incompleteArrayFill",
        356 => "varFuncNullUB",
        357 => "nanInArithmeticExpression",
        358 => "commaSeparatedReturn",
        _ => "redundantPointerOp",
    }
}

fn rule_id_text_9(i: usize) -> (r: &'static str)
    requires
        360 <= i < 400,
    ensures
        r@ == rule_id(i as int),
{
    match i {
        360 => "unusedLabel",
        361 => "unusedLabelConfiguration",
        362 => "unusedLabelSwitch",
        363 => "unusedLabelSwitchConfiguration",
        364 => "unknownEvaluationOrder",
        365 => "accessMoved",
        366 => "accessForwarded",
        367 => "funcArgNamesDifferent",
        368 => "redundantBitwiseOperationInSwitch",
        369 => "shadowVariable",
        370 => "shadowFunction",
        371 => "shadowArgument",
        372 => "knownArgument",
        373 => "knownArgumentHiddenVariableExpression",
        374 => "comparePointers",
        375 => "redundantAssignment",
        376 => "redundantInitialization",
        377 => "funcArgOrderDifferent",
        378 => "moduloofone",
        379 => "containerOutOfBounds",
        380 => "invalidIterator1",
        381 => "iterators1",
        382 => "iterators2",
        383 => "iterators3",
        384 => "invalidContainerLoop",
        385 => "invalidContainer",
        386 => "mismatchingContainerIterator",
        387 => "mismatchingContainers",
        388 => "mismatchingContainerExpression",
        389 => "sameIteratorExpression",
        390 => "eraseDereference",
        391 => "stlOutOfBounds",
        392 => "negativeContainerIndex",
        393 => "stlBoundaries",
        394 => "stlIfFind",
        395 => "stlIfStrFind",
        396 => "stlFindInsert",
        397 => "stlcstr",
        398 => "stlcstrReturn",
        _ => "stlcstrParam",
    }
}

fn rule_id_text_10(i: usize) -> (r: &'static str)
    requires
        400 <= i < 440,
    ensures
        r@ == rule_id(i as int),
{
    match i {
        400 => "stlcstrthrow",
        401 => "stlSize",
        402 => "StlMissingComparison",
        403 => "redundantIfRemove",
        404 => "uselessCallsCompare",
        405 => "uselessCallsSwap",
        406 => "uselessCallsSubstr",
        407 => "uselessCallsEmpty",
        408 => "uselessCallsRemove",
        409 => "derefInvalidIterator",
        410 => "useStlAlgorithm",
        411 => "knownEmptyContainer",
        412 => "globalLockGuard",
        413 => "localMutex",
        414 => "sizeofwithsilentarraypointer",
        415 => "pointerSize",
        416 => "sizeofDivisionMemfunc",
        417 => "sizeofwithnumericparameter",
        418 => "sizeofsizeof",
        419 => "sizeofCalculation",
        420 => "sizeofFunctionCall",
        421 => "multiplySizeof",
        422 => "divideSizeof",
        423 => "sizeofVoid",
        424 => "sizeofDereferencedVoidPointer",
        425 => "arithOperationsOnVoidPointer",
        426 => "stringLiteralWrite",
        427 => "sprintfOverlappingData",
        428 => "strPlusChar",
        429 => "incorrectStringCompare",
        430 => "literalWithCharPtrCompare",
        431 => "charLiteralWithCharPtrCompare",
        432 => "incorrectStringBooleanError",
        433 => "incorrectCharBooleanError",
        434 => "staticStringCompare",
        435 => "stringCompare",
        436 => "overlappingStrcmp",
        437 => "shiftTooManyBits",
        438 => "shiftTooManyBitsSigned",
        _ => "integerOverflow",
    }
}

fn rule_id_text_11(i: usize) -> (r: &'static str)
    requires
        440 <= i < 462,
    ensures
        r@ == rule_id(i as int),
{
    match i {
        440 => "signConversion",
        441 => "truncLongCastAssignment",
        442 => "truncLongCastReturn",
        443 => "floatConversionOverflow",
        444 => "uninitdata",
        445 => "uninitStructMember",
        446 => "unusedFunction",
        447 => "unusedVariable",
        448 => "unusedAllocatedMemory",
        449 => "unreadVariable",
        450 => "unassignedVariable",
        451 => "unusedStructMember",
        452 => "postfixOperator",
        453 => "va_start_wrongParameter",
        454 => "va_start_referencePassed",
        455 => "va_end_missing",
        456 => "va_list_usedBeforeStarted",
        457 => "va_start_subsequentCalls",
        458 => "missingInclude",
        459 => "missingIncludeSystem",
        460 => "ConfigurationNotChecked",
        _ => "preprocessorErrorDirective",
    }
}

/// The identifier at position `i` of the table.
pub(crate) fn rule_id_text(i: usize) -> (r: &'static str)
    requires
        i < TABLE_LEN,
    ensures
        r@ == rule_id(i as int),
{
    if i < 40 {
        rule_id_text_0(i)
    } else if i < 80 {
        rule_id_text_1(i)
    } else if i < 120 {
        rule_id_text_2(i)
    } else if i < 160 {
        rule_id_text_3(i)
    } else if i < 200 {
        rule_id_text_4(i)
    } else if i < 240 {
        rule_id_text_5(i)
    } else if i < 280 {
        rule_id_text_6(i)
    } else if i < 320 {
        rule_id_text_7(i)
    } else if i < 360 {
        rule_id_text_8(i)
    } else if i < 400 {
        rule_id_text_9(i)
    } else if i < 440 {
        rule_id_text_10(i)
    } else {
        rule_id_text_11(i)
    }
}

/// No identifier at positions 0 to 39 is empty.
proof fn lemma_rule_ids_nonempty_0()
    ensures
        forall|i: int| 0 <= i < 40 ==> rule_id(i).len() > 0,
{
    reveal_strlit("misra-c2012-1.1");
    reveal_strlit("misra-c2012-1.2");
    reveal_strlit("misra-c2012-1.3");
    reveal_strlit("misra-c2012-1.4");
    reveal_strlit("misra-c2012-2.1");
    reveal_strlit("misra-c2012-2.2");
    reveal_strlit("misra-c2012-2.3");
    reveal_strlit("misra-c2012-2.4");
    reveal_strlit("misra-c2012-2.5");
    reveal_strlit("misra-c2012-2.6");
    reveal_strlit("misra-c2012-2.7");
    reveal_strlit("misra-c2012-3.1");
    reveal_strlit("misra-c2012-3.2");
    reveal_strlit("misra-c2012-4.1");
    reveal_strlit("misra-c2012-4.2");
    reveal_strlit("misra-c2012-5.1");
    reveal_strlit("misra-c2012-5.2");
    reveal_strlit("misra-c2012-5.3");
    reveal_strlit("misra-c2012-5.4");
    reveal_strlit("misra-c2012-5.5");
    reveal_strlit("misra-c2012-5.6");
    reveal_strlit("misra-c2012-5.7");
    reveal_strlit("misra-c2012-5.8");
    reveal_strlit("misra-c2012-5.9");
    reveal_strlit("misra-c2012-6.1");
    reveal_strlit("misra-c2012-6.2");
    reveal_strlit("misra-c2012-7.1");
    reveal_strlit("misra-c2012-7.2");
    reveal_strlit("misra-c2012-7.3");
    reveal_strlit("misra-c2012-7.4");
    reveal_strlit("misra-c2012-8.1");
    reveal_strlit("misra-c2012-8.2");
    reveal_strlit("misra-c2012-8.3");
    reveal_strlit("misra-c2012-8.4");
    reveal_strlit("misra-c2012-8.5");
    reveal_strlit("misra-c2012-8.6");
    reveal_strlit("misra-c2012-8.7");
    reveal_strlit("misra-c2012-8.8");
    reveal_strlit("misra-c2012-8.9");
    reveal_strlit("misra-c2012-8.10");
}

/// No identifier at positions 40 to 79 is empty.
proof fn lemma_rule_ids_nonempty_1()
    ensures
        forall|i: int| 40 <= i < 80 ==> rule_id(i).len() > 0,
{
    reveal_strlit("misra-c2012-8.11");
    reveal_strlit("misra-c2012-8.12");
    reveal_strlit("misra-c2012-8.13");
    reveal_strlit("misra-c2012-8.14");
    reveal_strlit("misra-c2012-9.1");
    reveal_strlit("misra-c2012-9.2");
    reveal_strlit("misra-c2012-9.3");
    reveal_strlit("misra-c2012-9.4");
    reveal_strlit("misra-c2012-9.5");
    reveal_strlit("misra-c2012-10.1");
    reveal_strlit("misra-c2012-10.2");
    reveal_strlit("misra-c2012-10.3");
    reveal_strlit("misra-c2012-10.4");
    reveal_strlit("misra-c2012-10.5");
    reveal_strlit("misra-c2012-10.6");
    reveal_strlit("misra-c2012-10.7");
    reveal_strlit("misra-c2012-10.8");
    reveal_strlit("misra-c2012-11.1");
    reveal_strlit("misra-c2012-11.2");
    reveal_strlit("misra-c2012-11.3");
    reveal_strlit("misra-c2012-11.4");
    reveal_strlit("misra-c2012-11.5");
    reveal_strlit("misra-c2012-11.6");
    reveal_strlit("misra-c2012-11.7");
    reveal_strlit("misra-c2012-11.8");
    reveal_strlit("misra-c2012-11.9");
    reveal_strlit("misra-c2012-12.1");
    reveal_strlit("misra-c2012-12.2");
    reveal_strlit("misra-c2012-12.3");
    reveal_strlit("misra-c2012-12.4");
    reveal_strlit("misra-c2012-13.1");
    reveal_strlit("misra-c2012-13.2");
    reveal_strlit("misra-c2012-13.3");
    reveal_strlit("misra-c2012-13.4");
    reveal_strlit("misra-c2012-13.5");
    reveal_strlit("misra-c2012-13.6");
    reveal_strlit("misra-c2012-14.1");
    reveal_strlit("misra-c2012-14.2");
    reveal_strlit("misra-c2012-14.3");
    reveal_strlit("misra-c2012-14.4");
}

/// No identifier at positions 80 to 119 is empty.
proof fn lemma_rule_ids_nonempty_2()
    ensures
        forall|i: int| 80 <= i < 120 ==> rule_id(i).len() > 0,
{
    reveal_strlit("misra-c2012-15.1");
    reveal_strlit("misra-c2012-15.2");
    reveal_strlit("misra-c2012-15.3");
    reveal_strlit("misra-c2012-15.4");
    reveal_strlit("misra-c2012-15.5");
    reveal_strlit("misra-c2012-15.6");
    reveal_strlit("misra-c2012-15.7");
    reveal_strlit("misra-c2012-16.1");
    reveal_strlit("misra-c2012-16.2");
    reveal_strlit("misra-c2012-16.3");
    reveal_strlit("misra-c2012-16.4");
    reveal_strlit("misra-c2012-16.5");
    reveal_strlit("misra-c2012-16.6");
    reveal_strlit("misra-c2012-16.7");
    reveal_strlit("misra-c2012-17.1");
    reveal_strlit("misra-c2012-17.2");
    reveal_strlit("misra-c2012-17.3");
    reveal_strlit("misra-c2012-17.4");
    reveal_strlit("misra-c2012-17.5");
    reveal_strlit("misra-c2012-17.6");
    reveal_strlit("misra-c2012-17.7");
    reveal_strlit("misra-c2012-17.8");
    reveal_strlit("misra-c2012-18.1");
    reveal_strlit("misra-c2012-18.2");
    reveal_strlit("misra-c2012-18.3");
    reveal_strlit("misra-c2012-18.4");
    reveal_strlit("misra-c2012-18.5");
    reveal_strlit("misra-c2012-18.6");
    reveal_strlit("misra-c2012-18.7");
    reveal_strlit("misra-c2012-18.8");
    reveal_strlit("misra-c2012-19.1");
    reveal_strlit("misra-c2012-19.2");
    reveal_strlit("misra-c2012-20.1");
    reveal_strlit("misra-c2012-20.2");
    reveal_strlit("misra-c2012-20.3");
    reveal_strlit("misra-c2012-20.4");
    reveal_strlit("misra-c2012-20.5");
    reveal_strlit("misra-c2012-20.6");
    reveal_strlit("misra-c2012-20.7");
    reveal_strlit("misra-c2012-20.8");
}

/// No identifier at positions 120 to 159 is empty.
proof fn lemma_rule_ids_nonempty_3()
    ensures
        forall|i: int| 120 <= i < 160 ==> rule_id(i).len() > 0,
{
    reveal_strlit("misra-c2012-20.9");
    reveal_strlit("misra-c2012-20.10");
    reveal_strlit("misra-c2012-20.11");
    reveal_strlit("misra-c2012-20.12");
    reveal_strlit("misra-c2012-20.13");
    reveal_strlit("misra-c2012-20.14");
    reveal_strlit("misra-c2012-21.1");
    reveal_strlit("misra-c2012-21.2");
    reveal_strlit("misra-c2012-21.3");
    reveal_strlit("misra-c2012-21.4");
    reveal_strlit("misra-c2012-21.5");
    reveal_strlit("misra-c2012-21.6");
    reveal_strlit("misra-c2012-21.7");
    reveal_strlit("misra-c2012-21.8");
    reveal_strlit("misra-c2012-21.9");
    reveal_strlit("misra-c2012-21.10");
    reveal_strlit("misra-c2012-21.11");
    reveal_strlit("misra-c2012-21.12");
    reveal_strlit("misra-c2012-21.13");
    reveal_strlit("misra-c2012-21.14");
    reveal_strlit("misra-c2012-21.15");
    reveal_strlit("misra-c2012-21.16");
    reveal_strlit("misra-c2012-21.17");
    reveal_strlit("misra-c2012-21.18");
    reveal_strlit("misra-c2012-21.19");
    reveal_strlit("misra-c2012-21.20");
    reveal_strlit("misra-c2012-21.21");
    reveal_strlit("misra-c2012-22.1");
    reveal_strlit("misra-c2012-22.2");
    reveal_strlit("misra-c2012-22.3");
    reveal_strlit("misra-c2012-22.4");
    reveal_strlit("misra-c2012-22.5");
    reveal_strlit("misra-c2012-22.6");
    reveal_strlit("misra-c2012-22.7");
    reveal_strlit("misra-c2012-22.8");
    reveal_strlit("misra-c2012-22.9");
    reveal_strlit("misra-c2012-22.10");
    reveal_strlit("purgedConfiguration");
    reveal_strlit("toomanyconfigs");
    reveal_strlit("AssignmentAddressToInteger");
}

/// No identifier at positions 160 to 199 is empty.
proof fn lemma_rule_ids_nonempty_4()
    ensures
        forall|i: int| 160 <= i < 200 ==> rule_id(i).len() > 0,
{
    reveal_strlit("AssignmentIntegerToAddress");
    reveal_strlit("CastIntegerToAddressAtReturn");
    reveal_strlit("CastAddressToIntegerAtReturn");
    reveal_strlit("assertWithSideEffect");
    reveal_strlit("assignmentInAssert");
    reveal_strlit("autoVariables");
    reveal_strlit("returnReference");
    reveal_strlit("danglingReference");
    reveal_strlit("returnTempReference");
    reveal_strlit("danglingTempReference");
    reveal_strlit("autovarInvalidDeallocation");
    reveal_strlit("uselessAssignmentArg");
    reveal_strlit("uselessAssignmentPtrArg");
    reveal_strlit("returnDanglingLifetime");
    reveal_strlit("invalidLifetime");
    reveal_strlit("danglingLifetime");
    reveal_strlit("danglingTemporaryLifetime");
    reveal_strlit("assignBoolToPointer");
    reveal_strlit("assignBoolToFloat");
    reveal_strlit("comparisonOfFuncReturningBoolError");
    reveal_strlit("comparisonOfTwoFuncsReturningBoolError");
    reveal_strlit("comparisonOfBoolWithBoolError");
    reveal_strlit("incrementboolean");
    reveal_strlit("bitwiseOnBoolean");
    reveal_strlit("compareBoolExpressionWithInt");
    reveal_strlit("pointerArithBool");
    reveal_strlit("comparisonOfBoolWithInvalidComparator");
    reveal_strlit("returnNonBoolInBooleanFunction");
    reveal_strlit("boostForeachError");
    reveal_strlit("arrayIndexOutOfBounds");
    reveal_strlit("arrayIndexOutOfBoundsCond");
    reveal_strlit("pointerOutOfBounds");
    reveal_strlit("negativeIndex");
    reveal_strlit("arrayIndexThenCheck");
    reveal_strlit("bufferAccessOutOfBounds");
    reveal_strlit("objectIndex");
    reveal_strlit("argumentSize");
    reveal_strlit("negativeMemoryAllocationSize");
    reveal_strlit("negativeArraySize");
    reveal_strlit("invalidFunctionArg");
}

/// No identifier at positions 200 to 239 is empty.
proof fn lemma_rule_ids_nonempty_5()
    ensures
        forall|i: int| 200 <= i < 240 ==> rule_id(i).len() > 0,
{
    reveal_strlit("invalidFunctionArgBool");
    reveal_strlit("invalidFunctionArgStr");
    reveal_strlit("ignoredReturnValue");
    reveal_strlit("wrongmathcall");
    reveal_strlit("unpreciseMathCall");
    reveal_strlit("memsetZeroBytes");
    reveal_strlit("memsetFloat");
    reveal_strlit("memsetValueOutOfRange");
    reveal_strlit("missingReturn");
    reveal_strlit("returnStdMoveLocal");
    reveal_strlit("useStandardLibrary");
    reveal_strlit("noConstructor");
    reveal_strlit("noExplicitConstructor");
    reveal_strlit("copyCtorPointerCopying");
    reveal_strlit("noCopyConstructor");
    reveal_strlit("noOperatorEq");
    reveal_strlit("noDestructor");
    reveal_strlit("uninitMemberVar");
    reveal_strlit("uninitMemberVarPrivate");
    reveal_strlit("uninitDerivedMemberVar");
    reveal_strlit("uninitDerivedMemberVarPrivate");
    reveal_strlit("missingMemberCopy");
    reveal_strlit("operatorEqVarError");
    reveal_strlit("unusedPrivateFunction");
    reveal_strlit("memsetClass");
    reveal_strlit("memsetClassReference");
    reveal_strlit("memsetClassFloat");
    reveal_strlit("mallocOnClassWarning");
    reveal_strlit("mallocOnClassError");
    reveal_strlit("virtualDestructor");
    reveal_strlit("thisSubtraction");
    reveal_strlit("operatorEqRetRefThis");
    reveal_strlit("operatorEqMissingReturnStatement");
    reveal_strlit("operatorEqShouldBeLeftUnimplemented");
    reveal_strlit("operatorEqToSelf");
    reveal_strlit("functionConst");
    reveal_strlit("functionStatic");
    reveal_strlit("initializerList");
    reveal_strlit("useInitializationList");
    reveal_strlit("selfInitialization");
}

/// No identifier at positions 240 to 279 is empty.
proof fn lemma_rule_ids_nonempty_6()
    ensures
        forall|i: int| 240 <= i < 280 ==> rule_id(i).len() > 0,
{
    reveal_strlit("duplInheritedMember");
    reveal_strlit("copyCtorAndEqOperator");
    reveal_strlit("pureVirtualCall");
    reveal_strlit("virtualCallInConstructor");
    reveal_strlit("missingOverride");
    reveal_strlit("thisUseAfterFree");
    reveal_strlit("unsafeClassRefMember");
    reveal_strlit("assignIfError");
    reveal_strlit("badBitmaskCheck");
    reveal_strlit("comparisonError");
    reveal_strlit("duplicateCondition");
    reveal_strlit("multiCondition");
    reveal_strlit("mismatchingBitAnd");
    reveal_strlit("oppositeInnerCondition");
    reveal_strlit("identicalInnerCondition");
    reveal_strlit("identicalConditionAfterEarlyExit");
    reveal_strlit("incorrectLogicOperator");
    reveal_strlit("redundantCondition");
    reveal_strlit("moduloAlwaysTrueFalse");
    reveal_strlit("clarifyCondition");
    reveal_strlit("knownConditionTrueFalse");
    reveal_strlit("invalidTestForOverflow");
    reveal_strlit("pointerAdditionResultNotNull");
    reveal_strlit("duplicateConditionalAssign");
    reveal_strlit("assignmentInCondition");
    reveal_strlit("compareValueOutOfTypeRangeError");
    reveal_strlit("exceptThrowInDestructor");
    reveal_strlit("exceptDeallocThrow");
    reveal_strlit("exceptRethrowCopy");
    reveal_strlit("catchExceptionByValue");
    reveal_strlit("throwInNoexceptFunction");
    reveal_strlit("unhandledExceptionSpecification");
    reveal_strlit("rethrowNoCurrentException");
    reveal_strlit("coutCerrMisusage");
    reveal_strlit("fflushOnInputStream");
    reveal_strlit("IOWithoutPositioning");
    reveal_strlit("readWriteOnlyFile");
    reveal_strlit("writeReadOnlyFile");
    reveal_strlit("useClosedFile");
    reveal_strlit("seekOnAppendedFile");
}

/// No identifier at positions 280 to 319 is empty.
proof fn lemma_rule_ids_nonempty_7()
    ensures
        forall|i: int| 280 <= i < 320 ==> rule_id(i).len() > 0,
{
    reveal_strlit("incompatibleFileOpen");
    reveal_strlit("invalidscanf");
    reveal_strlit("wrongPrintfScanfArgNum");
    reveal_strlit("invalidScanfArgType_s");
    reveal_strlit("invalidScanfArgType_int");
    reveal_strlit("invalidScanfArgType_float");
    reveal_strlit("invalidPrintfArgType_s");
    reveal_strlit("invalidPrintfArgType_n");
    reveal_strlit("invalidPrintfArgType_p");
    reveal_strlit("invalidPrintfArgType_uint");
    reveal_strlit("invalidPrintfArgType_sint");
    reveal_strlit("invalidPrintfArgType_float");
    reveal_strlit("invalidLengthModifierError");
    reveal_strlit("invalidScanfFormatWidth");
    reveal_strlit("invalidScanfFormatWidth_smaller");
    reveal_strlit("wrongPrintfScanfParameterPositionError");
    reveal_strlit("deallocret");
    reveal_strlit("doubleFree");
    reveal_strlit("leakNoVarFunctionCall");
    reveal_strlit("leakReturnValNotUsed");
    reveal_strlit("leakUnsafeArgAlloc");
    reveal_strlit("publicAllocationError");
    reveal_strlit("unsafeClassCanLeak");
    reveal_strlit("memleak");
    reveal_strlit("resourceLeak");
    reveal_strlit("deallocuse");
    reveal_strlit("mismatchAllocDealloc");
    reveal_strlit("memleakOnRealloc");
    reveal_strlit("nullPointer");
    reveal_strlit("nullPointerDefaultArg");
    reveal_strlit("nullPointerRedundantCheck");
    reveal_strlit("nullPointerArithmetic");
    reveal_strlit("nullPointerArithmeticRedundantCheck");
    reveal_strlit("zerodiv");
    reveal_strlit("zerodivcond");
    reveal_strlit("unusedScopedObject");
    reveal_strlit("invalidPointerCast");
    reveal_strlit("shiftNegativeLHS");
    reveal_strlit("shiftNegative");
    reveal_strlit("raceAfterInterlockedDecrement");
}

/// No identifier at positions 320 to 359 is empty.
proof fn lemma_rule_ids_nonempty_8()
    ensures
        forall|i: int| 320 <= i < 360 ==> rule_id(i).len() > 0,
{
    reveal_strlit("invalidFree");
    reveal_strlit("overlappingWriteUnion");
    reveal_strlit("overlappingWriteFunction");
    reveal_strlit("redundantCopyLocalConst");
    reveal_strlit("redundantCopy");
    reveal_strlit("comparisonFunctionIsAlwaysTrueOrFalse");
    reveal_strlit("checkCastIntToCharAndBack");
    reveal_strlit("cstyleCast");
    reveal_strlit("passedByValue");
    reveal_strlit("constParameter");
    reveal_strlit("constVariable");
    reveal_strlit("constParameterCallback");
    reveal_strlit("constStatement");
    reveal_strlit("signedCharArrayIndex");
    reveal_strlit("unknownSignCharArrayIndex");
    reveal_strlit("charBitOp");
    reveal_strlit("variableScope");
    reveal_strlit("redundantAssignInSwitch");
    reveal_strlit("suspiciousCase");
    reveal_strlit("selfAssignment");
    reveal_strlit("clarifyCalculation");
    reveal_strlit("clarifyStatement");
    reveal_strlit("duplicateBranch");
    reveal_strlit("duplicateAssignExpression");
    reveal_strlit("oppositeExpression");
    reveal_strlit("duplicateExpression");
    reveal_strlit("duplicateValueTernary");
    reveal_strlit("duplicateExpressionTernary");
    reveal_strlit("duplicateBreak");
    reveal_strlit("unreachableCode");
    reveal_strlit("unsignedLessThanZero");
    reveal_strlit("unsignedPositive");
    reveal_strlit("pointerLessThanZero");
    reveal_strlit("pointerPositive");
    reveal_strlit("suspiciousSemicolon");
    reveal_strlit("incompleteArrayFill");
    reveal_strlit("varFuncNullUB");
    reveal_strlit("nanInArithmeticExpression");
    reveal_strlit("commaSeparatedReturn");
    reveal_strlit("redundantPointerOp");
}

/// No identifier at positions 360 to 399 is empty.
proof fn lemma_rule_ids_nonempty_9()
    ensures
        forall|i: int| 360 <= i < 400 ==> rule_id(i).len() > 0,
{
    reveal_strlit("unusedLabel");
    reveal_strlit("unusedLabelConfiguration");
    reveal_strlit("unusedLabelSwitch");
    reveal_strlit("unusedLabelSwitchConfiguration");
    reveal_strlit("unknownEvaluationOrder");
    reveal_strlit("accessMoved");
    reveal_strlit("accessForwarded");
    reveal_strlit("funcArgNamesDifferent");
    reveal_strlit("redundantBitwiseOperationInSwitch");
    reveal_strlit("shadowVariable");
    reveal_strlit("shadowFunction");
    reveal_strlit("shadowArgument");
    reveal_strlit("knownArgument");
    reveal_strlit("knownArgumentHiddenVariableExpression");
    reveal_strlit("comparePointers");
    reveal_strlit("redundantAssignment");
    reveal_strlit("redundantInitialization");
    reveal_strlit("funcArgOrderDifferent");
    reveal_strlit("moduloofone");
    reveal_strlit("containerOutOfBounds");
    reveal_strlit("invalidIterator1");
    reveal_strlit("iterators1");
    reveal_strlit("iterators2");
    reveal_strlit("iterators3");
    reveal_strlit("invalidContainerLoop");
    reveal_strlit("invalidContainer");
    reveal_strlit("mismatchingContainerIterator");
    reveal_strlit("mismatchingContainers");
    reveal_strlit("mismatchingContainerExpression");
    reveal_strlit("sameIteratorExpression");
    reveal_strlit("eraseDereference");
    reveal_strlit("stlOutOfBounds");
    reveal_strlit("negativeContainerIndex");
    reveal_strlit("stlBoundaries");
    reveal_strlit("stlIfFind");
    reveal_strlit("stlIfStrFind");
    reveal_strlit("stlFindInsert");
    reveal_strlit("stlcstr");
    reveal_strlit("stlcstrReturn");
    reveal_strlit("stlcstrParam");
}

/// No identifier at positions 400 to 439 is empty.
proof fn lemma_rule_ids_nonempty_10()
    ensures
        forall|i: int| 400 <= i < 440 ==> rule_id(i).len() > 0,
{
    reveal_strlit("stlcstrthrow");
    reveal_strlit("stlSize");
    reveal_strlit("StlMissingComparison");
    reveal_strlit("redundantIfRemove");
    reveal_strlit("uselessCallsCompare");
    reveal_strlit("uselessCallsSwap");
    reveal_strlit("uselessCallsSubstr");
    reveal_strlit("uselessCallsEmpty");
    reveal_strlit("uselessCallsRemove");
    reveal_strlit("derefInvalidIterator");
    reveal_strlit("useStlAlgorithm");
    reveal_strlit("knownEmptyContainer");
    reveal_strlit("globalLockGuard");
    reveal_strlit("localMutex");
    reveal_strlit("sizeofwithsilentarraypointer");
    reveal_strlit("pointerSize");
    reveal_strlit("sizeofDivisionMemfunc");
    reveal_strlit("sizeofwithnumericparameter");
    reveal_strlit("sizeofsizeof");
    reveal_strlit("sizeofCalculation");
    reveal_strlit("sizeofFunctionCall");
    reveal_strlit("multiplySizeof");
    reveal_strlit("divideSizeof");
    reveal_strlit("sizeofVoid");
    reveal_strlit("sizeofDereferencedVoidPointer");
    reveal_strlit("arithOperationsOnVoidPointer");
    reveal_strlit("stringLiteralWrite");
    reveal_strlit("sprintfOverlappingData");
    reveal_strlit("strPlusChar");
    reveal_strlit("incorrectStringCompare");
    reveal_strlit("literalWithCharPtrCompare");
    reveal_strlit("charLiteralWithCharPtrCompare");
    reveal_strlit("incorrectStringBooleanError");
    reveal_strlit("incorrectCharBooleanError");
    reveal_strlit("staticStringCompare");
    reveal_strlit("stringCompare");
    reveal_strlit("overlappingStrcmp");
    reveal_strlit("shiftTooManyBits");
    reveal_strlit("shiftTooManyBitsSigned");
    reveal_strlit("integerOverflow");
}

/// No identifier at positions 440 to 461 is empty.
proof fn lemma_rule_ids_nonempty_11()
    ensures
        forall|i: int| 440 <= i < 462 ==> rule_id(i).len() > 0,
{
    reveal_strlit("signConversion");
    reveal_strlit("truncLongCastAssignment");
    reveal_strlit("truncLongCastReturn");
    reveal_strlit("floatConversionOverflow");
    reveal_strlit("uninitdata");
    reveal_strlit("uninitStructMember");
    reveal_strlit("unusedFunction");
    reveal_strlit("unusedVariable");
    reveal_strlit("unusedAllocatedMemory");
    reveal_strlit("unreadVariable");
    reveal_strlit("unassignedVariable");
    reveal_strlit("unusedStructMember");
    reveal_strlit("postfixOperator");
    reveal_strlit("va_start_wrongParameter");
    reveal_strlit("va_start_referencePassed");
    reveal_strlit("va_end_missing");
    reveal_strlit("va_list_usedBeforeStarted");
    reveal_strlit("va_start_subsequentCalls");
    reveal_strlit("missingInclude");
    reveal_strlit("missingIncludeSystem");
    reveal_strlit("ConfigurationNotChecked");
    reveal_strlit("preprocessorErrorDirective");
}

/// No identifier in the table is empty.
pub proof fn lemma_rule_ids_nonempty()
    ensures
        forall|i: int| 0 <= i < TABLE_LEN ==> rule_id(i).len() > 0,
{
    lemma_rule_ids_nonempty_0();
    lemma_rule_ids_nonempty_1();
    lemma_rule_ids_nonempty_2();
    lemma_rule_ids_nonempty_3();
    lemma_rule_ids_nonempty_4();
    lemma_rule_ids_nonempty_5();
    lemma_rule_ids_nonempty_6();
    lemma_rule_ids_nonempty_7();
    lemma_rule_ids_nonempty_8();
    lemma_rule_ids_nonempty_9();
    lemma_rule_ids_nonempty_10();
    lemma_rule_ids_nonempty_11();
}

} // verus!
