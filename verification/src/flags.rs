//! The flag table of the SASS grammar: for every opcode, the bits that
//! each named modifier contributes to an instruction's code.
use vstd::prelude::*;

use crate::mut_map::MutStrMap;
use crate::text::{
    chars_of, parse_u64_chars, spec_parse_u64, split_chars, split_on, split_str, string_from_chars,
};
use crate::utils::{
    first_group, first_group_of, regex_match, regex_matches, spec_regex_match, spec_regex_matches,
};

verus! {

/// The flag table as text: lines of opcodes (`OP, OP: group`) followed by
/// lines of `code modifier`.
pub const FLAGS_TEXT: &'static str = "\
    BFE, BFI, FLO, IADD, IADD3, ICMP, IMNMX, ISCADD, ISET, ISETP, LEA, LOP, LOP3, MOV, PRMT, SEL, SHF, SHL, SHR, XMAD\
    0x0100000000000000 neg\
    \
    FADD, FCMP, FFMA, FMNMX, FMUL, FSET, FSETP, DADD, DFMA, DMNMX, DMUL, DSET, DSETP\
    0x0100000000000000 neg\
    \
    PSET, PSETP\
    0x0000000000008000 p12not\
    0x0000000100000000 p29not\
    \
    FMNMX, FSET, FSETP, DMNMX, DSET, DSETP, IMNMX, ISET, ISETP, SEL, PSET, PSETP, BAR, VOTE\
    0x0000040000000000 p39not\
    \
    IADD, IADD3, XMAD, LEA, IMNMX\
    0x0000800000000000 CC\
    \
    IADD32I\
    0x0010000000000000 CC\
    \
    LEA\
    0x0000000000000000 X\
    \
    SHF\
    0x0004000000000000 W\
    0x0001000000000000 HI\
    \
    SHF: type\
    0x0000004000000000 U64\
    0x0000006000000000 S64\
    \
    SHR, IMNMX, ISETP, ISET, ICMP, BFE\
    0x0001000000000000 U32\
    \
    SHL\
    0x0000008000000000 W\
    \
    SHFL\
    0x0000000010000000 i20w8\
    0x0000000020000000 i34w13\
    \
    SHFL: mode\
    0x0000000000000000 IDX\
    0x0000000040000000 UP\
    0x0000000080000000 DOWN\
    0x00000000c0000000 BFLY\
    \
    IMNMX: mode\
    0x0000080000000000 XLO\
    0x0000180000000000 XHI\
    \
    ISETP, ISET, ICMP: cmp\
    0x0002000000000000 LT\
    0x0004000000000000 EQ\
    0x0006000000000000 LE\
    0x0008000000000000 GT\
    0x000a000000000000 NE\
    0x000c000000000000 GE\
    \
    ISETP, ISET, PSETP, PSET: bool\
    0x0000000000000000 AND\
    0x0000200000000000 OR\
    0x0000400000000000 XOR\
    \
    PSETP, PSET: bool2\
    0x0000000000000000 AND\
    0x0000000001000000 OR\
    0x0000000002000000 XOR\
    \
    ISETP, ISET\
    0x0000080000000000 X\
    \
    LOP: bool\
    0x0000000000000000 AND\
    0x0000020000000000 OR\
    0x0000040000000000 XOR\
    0x0000060000000000 PASS_B\
    \
    LOP:\
    0x0000010000000000 INV\
    \
    LOP: z\
    0x0000200000000000 Z\
    0x0000300000000000 NZ\
    \
    LOP\
    0x0007000000000000 noz\
    \
    LOP32I: bool\
    0x0000000000000000 AND\
    0x0020000000000000 OR\
    0x0040000000000000 XOR\
    \
    PRMT: mode\
    0x0001000000000000 F4E\
    0x0002000000000000 B4E\
    0x0003000000000000 RC8\
    0x0004000000000000 ECL\
    0x0005000000000000 ECR\
    0x0006000000000000 RC16\
    \
    XMAD: type1\
    0x0000000000000000 U16\
    0x0001000000000000 S16\
    \
    XMAD: type2\
    0x0000000000000000 U16\
    0x0002000000000000 S16\
    \
    XMAD: mode\
    0x0000002000000000 MRG\
    0x0000001000000000 PSL\
    0x0008000000000000 CHI\
    0x0004000000000000 CLO\
    0x000c000000000000 CSFU\
    0x0004001000000000 PSL.CLO\
    \
    XMAD: modec\
    0x0004000000000000 CLO\
    0x0008000000000000 CHI\
    0x000c000000000000 CSFU\
    0x0040000000000000 X\
    0x0080000000000000 PSL\
    0x0100000000000000 MRG\
    0x0084000000000000 PSL.CLO\
    \
    XMAD\
    0x0010000000000000 CBCC\
    \
    XMAD: r8part\
    0x0000000000000000 H0\
    0x0020000000000000 H1\
    \
    XMAD: r20part\
    0x0000000000000000 H0\
    0x0000000800000000 H1\
    \
    XMAD: r20partx\
    0x0000000000000000 H0\
    0x0010000000000000 H1\
    \
    XMAD: r39part\
    0x0000000000000000 H0\
    0x0010000000000000 H1\
    \
    VMAD, VADD, VABSDIFF, VMNMX, VSET: r8part\
    0x0000000000000000 B0\
    0x0000001000000000 B1\
    0x0000002000000000 B2\
    0x0000003000000000 B3\
    0x0000001000000000 H1\
    0x0000000000000000 H0\
    \
    VMAD, VADD, VABSDIFF, VMNMX, VSET: r20part\
    0x0000000000000000 B0\
    0x0000000010000000 B1\
    0x0000000020000000 B2\
    0x0000000030000000 B3\
    0x0000000010000000 H1\
    0x0000000000000000 H0\
    \
    VMAD\
    0x0040000000000000 r8neg\
    0x0020000000000000 r39neg\
    0x0008000000000000 SHR_7\
    0x0010000000000000 SHR_15\
    0x0060000000000000 PO\
    0x0080000000000000 SAT\
    \
    VMNMX\
    0x0100000000000000 MX\
    \
    VADD, VABSDIFF, VMNMX\
    0x0080000000000000 SAT\
    0x0040000000000000 UD\
    0x0040000000000000 SD\
    \
    VSET: cmp\
    0x0040000000000000 LT\
    0x0080000000000000 EQ\
    0x00c0000000000000 LE\
    0x0100000000000000 GT\
    0x0140000000000000 NE\
    0x0180000000000000 GE\
    \
    VADD, VSET: mode\
    0x0020000000000000 ACC\
    0x0028000000000000 MIN\
    0x0030000000000000 MAX\
    0x0000000000000000 MRG_16H\
    0x0008000000000000 MRG_16L\
    0x0010000000000000 MRG_8B0\
    0x0000000000000000 MRG_8B1\
    0x0018000000000000 MRG_8B2\
    0x0000000000000000 MRG_8B3\
    \
    VABSDIFF: mode\
    0x0003000000000000 ACC\
    0x000b000000000000 MIN\
    0x0013000000000000 MAX\
    0x0023000000000000 MRG_16H\
    0x002b000000000000 MRG_16L\
    0x0033000000000000 MRG_8B0\
    0x0000000000000000 MRG_8B1\
    0x003b000000000000 MRG_8B2\
    0x0000000000000000 MRG_8B3\
    \
    VMNMX: mode\
    0x0020000000000000 ACC\
    0x0028000000000000 MIN\
    0x0030000000000000 MAX\
    0x0000000000000000 MRG_16H\
    0x0008000000000000 MRG_16L\
    0x0010000000000000 MRG_8B0\
    0x0000000000000000 MRG_8B1\
    0x0018000000000000 MRG_8B2\
    0x0000000000000000 MRG_8B3\
    \
    VMAD, VADD, VABSDIFF, VMNMX, VSET: sign1\
    0x0000000000000000 U\
    0x0001000000000000 S\
    \
    VMAD, VADD, VABSDIFF, VMNMX, VSET: sign2\
    0x0000000000000000 U\
    0x0002000000000000 S\
    \
    VMAD, VADD, VABSDIFF, VMNMX, VSET: size1\
    0x0000000000000000 8\
    0x0000004000000000 16\
    0x0000006000000000 32\
    \
    VMAD, VADD, VABSDIFF, VMNMX, VSET: size2\
    0x0000000000000000 8\
    0x0000000040000000 16\
    0x0000000060000000 32\
    \
    IADD3: type\
    0x0001000000000000 X\
    0x0000002000000000 RS\
    0x0000004000000000 LS\
    \
    IADD3: r8part\
    0x0000000000000000 H0\
    0x0000001000000000 H1\
    \
    IADD3: r20part\
    0x0000000080000000 H0\
    \
    IADD3: r39part\
    0x0000000200000000 H0\
    \
    IADD3\
    0x0008000000000000 r8neg\
    0x0004000000000000 r20neg\
    0x0002000000000000 r39neg\
    \
    IADD\
    0x0000080000000000 X\
    0x0004000000000000 SAT\
    \
    IADD, ISCADD\
    0x0002000000000000 r8neg\
    0x0001000000000000 r20neg\
    \
    IADD32I\
    0x0100000000000000 r8neg\
    0x0020000000000000 X\
    \
    DEPBAR: SB\
    0x0000000000000000 SB0\
    0x0000000004000000 SB1\
    0x0000000008000000 SB2\
    0x000000000c000000 SB3\
    0x0000000010000000 SB4\
    0x0000000014000000 SB5\
    \
    DEPBAR: cmp\
    0x0000000020000000 LE\
    \
    DEPBAR\
    0x0000000000000001 db0\
    0x0000000000000002 db1\
    0x0000000000000004 db2\
    0x0000000000000008 db3\
    0x0000000000000010 db4\
    0x0000000000000020 db5\
    \
    F2F, F2I, I2F, I2I: destWidth\
    0x0000000000000000 8\
    0x0000000000000100 16\
    0x0000000000000200 32\
    0x0000000000000300 64\
    \
    F2F, F2I, I2F, I2I: srcWidth\
    0x0000000000000000 8\
    0x0000000000000400 16\
    0x0000000000000800 32\
    0x0000000000000c00 64\
    \
    F2F, F2I, I2F, I2I: destSign\
    0x0000000000000000 F\
    0x0000000000000000 U\
    0x0000000000001000 S\
    \
    F2F, F2I, I2F, I2I: srcSign\
    0x0000000000000000 F\
    0x0000000000000000 U\
    0x0000000000002000 S\
    \
    F2I, I2F, I2I: r20part\
    0x0000000000000000 H0\
    0x0000040000000000 H1\
    0x0000000000000000 B0\
    0x0000020000000000 B1\
    0x0000040000000000 B2\
    0x0000060000000000 B3\
    \
    F2F: r20part\
    0x0000000000000000 H0\
    0x0000020000000000 H1\
    \
    F2F: round\
    0x0000040000000000 ROUND\
    0x0000048000000000 FLOOR\
    0x0000050000000000 CEIL\
    0x0000058000000000 TRUNC\
    \
    F2I: round\
    0x0000000000000000 ROUND\
    0x0000008000000000 FLOOR\
    0x0000010000000000 CEIL\
    0x0000018000000000 TRUNC\
    \
    HADD2, HMUL2, HFMA2: r8part\
    0x0001000000000000 H0_H0\
    0x0001800000000000 H1_H1\
    0x0000800000000000 F32\
    \
    HADD2, HMUL2, HFMA2: r20part\
    0x0000000020000000 H0_H0\
    0x0000000030000000 H1_H1\
    \
    HFMA2: r39part\
    0x0000000800000000 F32\
    0x0000001000000000 H0_H0\
    0x0000001800000000 H1_H1\
    \
    HADD2, HMUL2, HFMA2\
    0x0000000080000000 r20neg\
    0x0000000040000000 r39neg\
    \
    HADD2, HMUL2, HFMA2: mode\
    0x0002000000000000 F32\
    0x0004000000000000 MRG_H0\
    0x0006000000000000 MRG_H1\
    \
    HADD2, HMUL2\
    0x0000008000000000 FTZ\
    \
    HFMA2\
    0x0000002000000000 FTZ\
    \
    HFMA2\
    0x0000004000000000 FMZ\
    \
    HADD2, HMUL2, HFMA2\
    0x0000000100000000 SAT\
    \
    FADD, DADD, FMUL, DMUL, F2F, I2F: rnd\
    0x0000000000000000 RN\
    0x0000008000000000 RM\
    0x0000010000000000 RP\
    0x0000018000000000 RZ\
    \
    DFMA: rnd\
    0x0000000000000000 RN\
    0x0004000000000000 RM\
    0x0008000000000000 RP\
    0x000c000000000000 RZ\
    \
    FFMA: rnd\
    0x0000000000000000 RN\
    0x0008000000000000 RM\
    0x0010000000000000 RP\
    0x0018000000000000 RZ\
    \
    FFMA\
    0x0020000000000000 FTZ\
    \
    F2F, F2I, FADD, FMUL, FMNMX\
    0x0000100000000000 FTZ\
    \
    FADD32I\
    0x0080000000000000 FTZ\
    \
    FMUL32I\
    0x0020000000000000 FTZ\
    \
    FSET\
    0x0080000000000000 FTZ\
    \
    FSETP, FCMP\
    0x0000800000000000 FTZ\
    \
    FADD, FFMA, FMUL, F2F, I2I\
    0x0004000000000000 SAT\
    \
    FADD, DADD, FMNMX, DMNMX, MUFU\
    0x0001000000000000 r8neg\
    \
    FADD, DADD, FMNMX, DMNMX, RRO, F2F, F2I, I2F, I2I\
    0x0000200000000000 r20neg\
    \
    FMUL, DMUL, FFMA, DFMA\
    0x0001000000000000 r20neg\
    \
    FFMA, DFMA\
    0x0002000000000000 r39neg\
    \
    FADD, DADD, FMNMX, DMNMX\
    0x0000400000000000 r8abs\
    \
    FADD, DADD, FMNMX, DMNMX, F2F, F2I, I2F, I2I\
    0x0002000000000000 r20abs\
    \
    FSETP, DSETP, FSET, DSET\
    0x0000080000000000 r8neg\
    0x0000000000000040 r20neg\
    0x0000000000000080 r8abs\
    0x0000100000000000 r20abs\
    \
    RRO: func\
    0x0000000000000000 SINCOS\
    0x0000008000000000 EX2\
    \
    MUFU: func\
    0x0000000000000000 COS\
    0x0000000000100000 SIN\
    0x0000000000200000 EX2\
    0x0000000000300000 LG2\
    0x0000000000400000 RCP\
    0x0000000000500000 RSQ\
    0x0000000000600000 RCP64H\
    0x0000000000700000 RSQ64H\
    \
    FSETP, DSETP, FSET, DSET, FCMP: cmp\
    0x0001000000000000 .LT\
    0x0002000000000000 .EQ\
    0x0003000000000000 .LE\
    0x0004000000000000 .GT\
    0x0004000000000000\
    0x0005000000000000 .NE\
    0x0006000000000000 .GE\
    0x0007000000000000 .NUM\
    0x0008000000000000 .NAN\
    0x0009000000000000 .LTU\
    0x000a000000000000 .EQU\
    0x000b000000000000 .LEU\
    0x000c000000000000 .GTU\
    0x000d000000000000 .NEU\
    0x000e000000000000 .GEU\
    \
    FSETP, DSETP, FSET, DSET: bool\
    0x0000000000000000 AND\
    0x0000200000000000 OR\
    0x0000400000000000 XOR\
    \
    HSETP2: cmp\
    0x0000002800000000 .NE\
    \
    HSETP2: bool\
    0x0000000000000000 AND\
    \
    S2R: sr\
    0x0000000000000000 LANEID\
    0x0000000000200000 VIRTCFG\
    0x0000000000300000 VIRTID\
    0x0000000002100000 TID.X\
    0x0000000002200000 TID.Y\
    0x0000000002300000 TID.Z\
    0x0000000002500000 CTAID.X\
    0x0000000002600000 CTAID.Y\
    0x0000000002700000 CTAID.Z\
    0x0000000003800000 EQMASK\
    0x0000000003900000 LTMASK\
    0x0000000003a00000 LEMASK\
    0x0000000003b00000 GTMASK\
    0x0000000003c00000 GEMASK\
    \
    CS2R: sr\
    0x0000000005000000 CLOCKLO\
    0x0000000005100000 CLOCKHI\
    0x0000000005200000 GLOBALTIMERLO\
    0x0000000005300000 GLOBALTIMERHI\
    \
    B2R\
    0x0000e00000000000 nop45\
    \
    BAR\
    0x0000100000000000 i8w4\
    0x0000080000000000 nor20\
    0x0000038000000000 nop39\
    \
    BAR: mode\
    0x0000000000000000 SYNC\
    0x0000000100000000 ARV\
    0x0000000200000000 RED\
    \
    BAR: red\
    0x0000000000000000 POPC\
    0x0000000800000000 AND\
    0x0000001000000000 OR\
    \
    MEMBAR: mode\
    0x0000000000000000 CTA\
    0x0000000000000100 GL\
    0x0000000000000200 SYS\
    \
    VOTE: mode\
    0x0000000000000000 ALL\
    0x0001000000000000 ANY\
    0x0002000000000000 EQ\
    \
    VOTE\
    0x00000000000000ff nor0\
    \
    BRA\
    0x0000000000000080 U\
    \
    TLDS: chnls\
    0x0010000000000000 RGBA\
    \
    TLDS\
    0x0002000000000000 NODEP\
    \
    LD, ST, LDG, STG, LDS, STS, LDL, STL, LDC, RED, ATOM, ATOMS\
    0x000000000000ff00 nor8\
    \
    LD, ST: type\
    0x0000000000000000 .U8\
    0x0020000000000000 .S8\
    0x0040000000000000 .U16\
    0x0060000000000000 .S16\
    0x0080000000000000\
    0x0080000000000000 .32\
    0x00a0000000000000 .64\
    0x00c0000000000000 .128\
    \
    LD, ST: cache\
    0x0100000000000000 CG\
    0x0200000000000000 CS\
    0x0300000000000000 CV\
    0x0300000000000000 WT\
    \
    LDG, STG, LDS, STS, LDL, STL, LDC: type\
    0x0000000000000000 .U8\
    0x0001000000000000 .S8\
    0x0002000000000000 .U16\
    0x0003000000000000 .S16\
    0x0004000000000000\
    0x0004000000000000 .32\
    0x0005000000000000 .64\
    0x0006000000000000 .128\
    \
    LDG, STG: cache\
    0x0000400000000000 CG\
    0x0000800000000000 CI\
    0x0000800000000000 CS\
    0x0000c00000000000 CV\
    0x0000c00000000000 WT\
    \
    LDL: cache\
    0x0000200000000000 CI\
    \
    LDC: cache\
    0x0000100000000000 IL\
    \
    LDG, STG, LDS, STS, LDL, STL, LDC\
    0x0000200000000000 E\
    \
    LDS\
    0x0000100000000000 U\
    \
    RED: type\
    0x0000000000000000\
    0x0000000000100000 .S32\
    0x0000000000200000 .U64\
    0x0000000000300000 .F32.FTZ.RN\
    0x0000000000400000 .F16x2.FTZ.RN\
    0x0000000000500000 .S64\
    \
    RED: mode\
    0x0000000000000000 ADD\
    0x0000000000800000 MIN\
    0x0000000001000000 MAX\
    0x0000000001800000 INC\
    0x0000000002000000 DEC\
    0x0000000002800000 AND\
    0x0000000003000000 OR\
    0x0000000003800000 XOR\
    \
    ATOM: type\
    0x0000000000000000\
    0x0002000000000000 .S32\
    0x0004000000000000 .U64\
    0x0006000000000000 .F32.FTZ.RN\
    0x0008000000000000 .F16x2.FTZ.RN\
    0x000a000000000000 .S64\
    0x0002000000000000 .64\
    \
    ATOM, RED\
    0x0001000000000000 E\
    \
    ATOM: mode\
    0x0000000000000000 ADD\
    0x0010000000000000 MIN\
    0x0020000000000000 MAX\
    0x0030000000000000 INC\
    0x0040000000000000 DEC\
    0x0050000000000000 AND\
    0x0060000000000000 OR\
    0x0070000000000000 XOR\
    0x0080000000000000 EXCH\
    0x03f0000000000000 CAS\
    \
    ATOMS: type\
    0x0000000000000000\
    0x0000000010000000 .S32\
    0x0000000020000000 .U64\
    0x0000000030000000 .S64\
    0x0010000000000000 .64\
    \
    ATOMS: mode\
    0x0000000000000000 ADD\
    0x0010000000000000 MIN\
    0x0020000000000000 MAX\
    0x0030000000000000 INC\
    0x0040000000000000 DEC\
    0x0050000000000000 AND\
    0x0060000000000000 OR\
    0x0070000000000000 XOR\
    0x0080000000000000 EXCH\
    0x0240000000000000 CAS\
    \
    DP4A, DP2A: type1\
    0x0000000000000000 U32\
    0x0002000000000000 S32\
    \
    DP4A, DP2A: type2\
    0x0000000000000000 U32\
    0x0000800000000000 S32\
    \
    DP2A: mode\
    0x0000000000000000 LO\
    0x0004000000000000 HI\
";

/// A line that holds something.
pub const NONBLANK_RE: &'static str = r"\S+";

/// A flag value line: the code and the modifier.
pub const FLAG_VALUE_RE: &'static str = r"^(0x[0-9a-z]+)\s*(.*)";

/// The bits of a modifier: fixed, or chosen by the modifier's value.
pub enum FlagVal {
    Bits(u64),
    Choice(MutStrMap<u64>),
}

/// What a `FlagVal` holds.
pub enum FlagSpec {
    Bits(u64),
    Choice(Map<Seq<char>, u64>),
}

impl View for FlagVal {
    type V = FlagSpec;

    open spec fn view(&self) -> FlagSpec {
        match self {
            FlagVal::Bits(b) => FlagSpec::Bits(*b),
            FlagVal::Choice(m) => FlagSpec::Choice(m@),
        }
    }
}

/// What a flag table holds: opcode, then modifier, then its bits.
pub open spec fn flags_view(f: Map<Seq<char>, MutStrMap<FlagVal>>) -> Map<
    Seq<char>,
    Map<Seq<char>, FlagSpec>,
> {
    f.map_values(|m: MutStrMap<FlagVal>| m@.map_values(|v: FlagVal| v@))
}

/// Whether `c` is white space as `char::is_whitespace` has it (the Unicode
/// White_Space property).
pub open spec fn is_ws(c: char) -> bool {
    c == '\t' || c == '\n' || c == '\x0B' || c == '\x0C' || c == '\r' || c == ' ' || c == '\u{85}'
        || c == '\u{A0}' || c == '\u{1680}' || ('\u{2000}' <= c && c <= '\u{200A}') || c
        == '\u{2028}' || c == '\u{2029}' || c == '\u{202F}' || c == '\u{205F}' || c == '\u{3000}'
}

/// `s` without leading white space.
pub open spec fn trim_start(s: Seq<char>) -> Seq<char>
    decreases s.len(),
{
    if s.len() > 0 && is_ws(s[0]) {
        trim_start(s.drop_first())
    } else {
        s
    }
}

/// `s` without trailing white space.
pub open spec fn trim_end(s: Seq<char>) -> Seq<char>
    decreases s.len(),
{
    if s.len() > 0 && is_ws(s.last()) {
        trim_end(s.drop_last())
    } else {
        s
    }
}

/// `s` without leading and trailing white space, as `str::trim`.
pub open spec fn trim(s: Seq<char>) -> Seq<char> {
    trim_end(trim_start(s))
}

fn is_ws_char(c: char) -> (b: bool)
    ensures
        b == is_ws(c),
{
    c == '\t' || c == '\n' || c == '\x0B' || c == '\x0C' || c == '\r' || c == ' ' || c == '\u{85}'
        || c == '\u{A0}' || c == '\u{1680}' || ('\u{2000}' <= c && c <= '\u{200A}') || c
        == '\u{2028}' || c == '\u{2029}' || c == '\u{202F}' || c == '\u{205F}' || c == '\u{3000}'
}

/// `s` without leading and trailing white space.
pub fn trim_chars(s: &Vec<char>) -> (r: Vec<char>)
    ensures
        r@ == trim(s@),
{
    let mut a: usize = 0;
    assert(s@.subrange(0, s@.len() as int) =~= s@);
    while a < s.len() && is_ws_char(s[a])
        invariant
            a <= s@.len(),
            trim_start(s@) == trim_start(s@.subrange(a as int, s@.len() as int)),
        decreases s@.len() - a,
    {
        proof {
            assert(s@.subrange(a as int, s@.len() as int).drop_first() =~= s@.subrange(
                a + 1,
                s@.len() as int,
            ));
        }
        a = a + 1;
    }
    let ghost st = s@.subrange(a as int, s@.len() as int);
    assert(trim_start(s@) == st);
    let mut b: usize = s.len();
    while b > a && is_ws_char(s[b - 1])
        invariant
            a <= b <= s@.len(),
            st == s@.subrange(a as int, s@.len() as int),
            trim_end(st) == trim_end(s@.subrange(a as int, b as int)),
        decreases b - a,
    {
        proof {
            assert(s@.subrange(a as int, b as int).drop_last() =~= s@.subrange(a as int, b - 1));
        }
        b = b - 1;
    }
    let mut r: Vec<char> = Vec::new();
    let mut i: usize = a;
    while i < b
        invariant
            a <= i <= b <= s@.len(),
            r@ == s@.subrange(a as int, i as int),
        decreases b - i,
    {
        r.push(s[i]);
        i = i + 1;
        assert(r@ =~= s@.subrange(a as int, i as int));
    }
    r
}

/// A line of the flag table: the opcodes the next values are for (with
/// their group name, if any), or a value (bits and modifier).
pub enum FlagLine {
    Ops(Vec<Vec<char>>, Option<Vec<char>>),
    Value(u64, Vec<char>),
}

pub enum FlagLineSpec {
    Ops(Seq<Seq<char>>, Option<Seq<char>>),
    Value(u64, Seq<char>),
}

impl View for FlagLine {
    type V = FlagLineSpec;

    open spec fn view(&self) -> FlagLineSpec {
        match self {
            FlagLine::Ops(o, g) => FlagLineSpec::Ops(
                o.deep_view(),
                match g {
                    Some(g) => Some(g@),
                    None => None,
                },
            ),
            FlagLine::Value(v, k) => FlagLineSpec::Value(*v, k@),
        }
    }
}

/// What a line of the flag table says; `None` where it cannot be read.
pub open spec fn spec_flag_line(line: Seq<char>) -> Option<FlagLineSpec> {
    match spec_regex_matches(FLAG_VALUE_RE@, line) {
        None => None,
        Some(ms) => if ms.len() == 0 {
            let opsname = split_on(line, ':');
            Some(
                FlagLineSpec::Ops(
                    split_on(opsname[0], ','),
                    if opsname.len() == 2 {
                        Some(trim(opsname[1]))
                    } else {
                        None
                    },
                ),
            )
        } else {
            match first_group(spec_regex_matches(FLAG_VALUE_RE@, line), 1) {
                None => None,
                Some(h) => match spec_parse_u64(h) {
                    None => None,
                    Some(v) => match first_group(spec_regex_matches(FLAG_VALUE_RE@, line), 2) {
                        None => None,
                        Some(k) => Some(FlagLineSpec::Value(v, k)),
                    },
                },
            }
        },
    }
}

/// Reads a line of the flag table.
pub fn classify_flag_line(line: &str) -> (r: Option<FlagLine>)
    ensures
        match r {
            Some(l) => spec_flag_line(line@) == Some(l@),
            None => spec_flag_line(line@) is None,
        },
{
    let m = regex_matches(FLAG_VALUE_RE, line);
    let n = match &m {
        None => return None,
        Some(ms) => ms.len(),
    };
    if n == 0 {
        let opsname = split_str(line, ':');
        proof {
            assert(opsname.deep_view()[0] == opsname@[0]@);
        }
        let ops = split_chars(&opsname[0], ',');
        let group = if opsname.len() == 2 {
            proof {
                assert(opsname.deep_view()[1] == opsname@[1]@);
            }
            Some(trim_chars(&opsname[1]))
        } else {
            None
        };
        Some(FlagLine::Ops(ops, group))
    } else {
        let h = match first_group_of(&m, 1) {
            None => return None,
            Some(h) => h,
        };
        let v = match parse_u64_chars(&h) {
            None => return None,
            Some(v) => v,
        };
        match first_group_of(&m, 2) {
            None => None,
            Some(k) => Some(FlagLine::Value(v, k)),
        }
    }
}

/// The modifier table of opcode `op` in `f` (empty if it has none).
pub open spec fn table_of(f: Map<Seq<char>, Map<Seq<char>, FlagSpec>>, op: Seq<char>) -> Map<
    Seq<char>,
    FlagSpec,
> {
    if f.contains_key(op) {
        f[op]
    } else {
        Map::empty()
    }
}

/// `f` with `key` set to `val` in the table of every opcode of `ops`.
pub open spec fn put_all(
    f: Map<Seq<char>, Map<Seq<char>, FlagSpec>>,
    ops: Seq<Seq<char>>,
    key: Seq<char>,
    val: FlagSpec,
) -> Map<Seq<char>, Map<Seq<char>, FlagSpec>>
    decreases ops.len(),
{
    if ops.len() == 0 {
        f
    } else {
        let g = put_all(f, ops.drop_last(), key, val);
        g.insert(ops.last(), table_of(g, ops.last()).insert(key, val))
    }
}

/// The flag table the lines `ls` build: an opcode line names the opcodes
/// (and group) the following values are for; a value of a group is stored
/// under the group name as a one-entry choice, other values under their
/// modifier.
pub open spec fn flags_fold(ls: Seq<FlagLineSpec>) -> (
    Seq<Seq<char>>,
    Option<Seq<char>>,
    Map<Seq<char>, Map<Seq<char>, FlagSpec>>,
)
    decreases ls.len(),
{
    if ls.len() == 0 {
        (Seq::empty(), None, Map::empty())
    } else {
        let (ops, group, f) = flags_fold(ls.drop_last());
        match ls.last() {
            FlagLineSpec::Ops(o, g) => (o, g, f),
            FlagLineSpec::Value(v, k) => match group {
                Some(g) => (
                    ops,
                    group,
                    put_all(f, ops, g, FlagSpec::Choice(Map::empty().insert(k, v))),
                ),
                None => (ops, group, put_all(f, ops, k, FlagSpec::Bits(v))),
            },
        }
    }
}

fn put_flag(flags: &mut MutStrMap<MutStrMap<FlagVal>>, op: &Vec<char>, key: &Vec<char>, val: FlagVal)
    ensures
        flags_view(final(flags)@) == flags_view(old(flags)@).insert(
            op@,
            table_of(flags_view(old(flags)@), op@).insert(key@, val@),
        ),
{
    let op_s = string_from_chars(op);
    let key_s = string_from_chars(key);
    let ghost before = flags@;
    let mut table = match flags.remove(op_s.as_str()) {
        Some(t) => t,
        None => MutStrMap::new(),
    };
    let ghost t0 = table@;
    let ghost vv = val@;
    table.insert(key_s.as_str(), val);
    proof {
        assert(t0.map_values(|v: FlagVal| v@) == table_of(flags_view(before), op@));
        assert(table@.map_values(|v: FlagVal| v@) =~= t0.map_values(|v: FlagVal| v@).insert(
            key@,
            vv,
        ));
    }
    flags.insert(op_s.as_str(), table);
    proof {
        assert(flags_view(flags@) =~= flags_view(before).insert(
            op@,
            table_of(flags_view(before), op@).insert(key@, vv),
        ));
    }
}

fn choice_of(key: &Vec<char>, v: u64) -> (r: FlagVal)
    ensures
        r@ == FlagSpec::Choice(Map::empty().insert(key@, v)),
{
    let mut m: MutStrMap<u64> = MutStrMap::new();
    let k = string_from_chars(key);
    m.insert(k.as_str(), v);
    FlagVal::Choice(m)
}

/// The flag table that the lines `lines` build (see `flags_fold`).
pub fn flags_from_lines(lines: &Vec<FlagLine>) -> (flags: MutStrMap<MutStrMap<FlagVal>>)
    ensures
        flags_view(flags@) == flags_fold(lines@.map_values(|l: FlagLine| l@)).2,
{
    let ghost ls = lines@.map_values(|l: FlagLine| l@);
    let mut flags: MutStrMap<MutStrMap<FlagVal>> = MutStrMap::new();
    let mut ops: Vec<Vec<char>> = Vec::new();
    let mut group: Option<Vec<char>> = None;
    let mut i: usize = 0;
    proof {
        assert(ls.take(0) =~= Seq::<FlagLineSpec>::empty());
        assert(flags_view(flags@) =~= Map::empty());
        assert(ops.deep_view() =~= Seq::<Seq<char>>::empty());
    }
    while i < lines.len()
        invariant
            i <= lines@.len(),
            ls == lines@.map_values(|l: FlagLine| l@),
            flags_fold(ls.take(i as int)) == (
                ops.deep_view(),
                match group {
                    Some(g) => Some(g@),
                    None => None,
                },
                flags_view(flags@),
            ),
        decreases lines@.len() - i,
    {
        proof {
            assert(ls.take(i + 1).drop_last() =~= ls.take(i as int));
            assert(ls.take(i + 1).last() == lines@[i as int]@);
        }
        match &lines[i] {
            FlagLine::Ops(o, g) => {
                ops = o.clone();
                group = g.clone();
                proof {
                    assert(ops.deep_view() =~= o.deep_view()) by {
                        assert forall|j: int| 0 <= j < ops@.len() implies ops@[j]@ == o@[j]@ by {}
                    }
                }
            },
            FlagLine::Value(v, k) => {
                let ghost f0 = flags_view(flags@);
                let mut j: usize = 0;
                while j < ops.len()
                    invariant
                        j <= ops@.len(),
                        flags_view(flags@) == (match group {
                            Some(g) => put_all(
                                f0,
                                ops.deep_view().take(j as int),
                                g@,
                                FlagSpec::Choice(Map::empty().insert(k@, *v)),
                            ),
                            None => put_all(f0, ops.deep_view().take(j as int), k@, FlagSpec::Bits(*v)),
                        }),
                    decreases ops@.len() - j,
                {
                    proof {
                        assert(ops.deep_view().take(j + 1).drop_last() =~= ops.deep_view().take(
                            j as int,
                        ));
                        assert(ops.deep_view().take(j + 1).last() == ops@[j as int]@);
                    }
                    match &group {
                        Some(g) => {
                            let c = choice_of(k, *v);
                            put_flag(&mut flags, &ops[j], g, c);
                        },
                        None => {
                            put_flag(&mut flags, &ops[j], k, FlagVal::Bits(*v));
                        },
                    }
                    j = j + 1;
                }
                proof {
                    assert(ops.deep_view().take(ops@.len() as int) =~= ops.deep_view());
                }
            },
        }
        i = i + 1;
    }
    proof {
        assert(ls.take(lines@.len() as int) =~= ls);
    }
    flags
}

/// The lines of `ls` that hold something, each read; `None` where a line
/// cannot be read.
pub open spec fn spec_flag_lines(ls: Seq<Seq<char>>) -> Option<Seq<FlagLineSpec>>
    decreases ls.len(),
{
    if ls.len() == 0 {
        Some(Seq::empty())
    } else {
        match spec_flag_lines(ls.drop_last()) {
            None => None,
            Some(done) => match spec_regex_match(NONBLANK_RE@, ls.last()) {
                None => None,
                Some(false) => Some(done),
                Some(true) => match spec_flag_line(ls.last()) {
                    None => None,
                    Some(l) => Some(done.push(l)),
                },
            },
        }
    }
}

/// The flag table the text `FLAGS_TEXT` builds; `None` where a line of it
/// cannot be read.
pub open spec fn spec_build_flags() -> Option<Map<Seq<char>, Map<Seq<char>, FlagSpec>>> {
    match spec_flag_lines(split_on(FLAGS_TEXT@, '\n')) {
        None => None,
        Some(ls) => Some(flags_fold(ls).2),
    }
}

/// Builds the flag table from `FLAGS_TEXT`.
pub fn build_flags() -> (r: Option<MutStrMap<MutStrMap<FlagVal>>>)
    ensures
        match r {
            Some(f) => spec_build_flags() == Some(flags_view(f@)),
            None => spec_build_flags() is None,
        },
{
    let text = split_str(FLAGS_TEXT, '\n');
    let mut kept: Vec<FlagLine> = Vec::new();
    let mut i: usize = 0;
    proof {
        assert(text.deep_view().take(0) =~= Seq::<Seq<char>>::empty());
        assert(kept@.map_values(|l: FlagLine| l@) =~= Seq::<FlagLineSpec>::empty());
    }
    while i < text.len()
        invariant
            i <= text@.len(),
            text.deep_view() == split_on(FLAGS_TEXT@, '\n'),
            spec_flag_lines(text.deep_view().take(i as int)) == Some(
                kept@.map_values(|l: FlagLine| l@),
            ),
        decreases text@.len() - i,
    {
        proof {
            assert(text.deep_view().take(i + 1).drop_last() =~= text.deep_view().take(i as int));
            assert(text.deep_view().take(i + 1).last() == text@[i as int]@);
        }
        let line = string_from_chars(&text[i]);
        match regex_match(NONBLANK_RE, line.as_str()) {
            None => {
                proof {
                    lemma_flag_lines_stuck(text.deep_view(), i as int);
                }
                return None;
            },
            Some(false) => {},
            Some(true) => match classify_flag_line(line.as_str()) {
                None => {
                    proof {
                        lemma_flag_lines_stuck(text.deep_view(), i as int);
                    }
                    return None;
                },
                Some(l) => {
                    let ghost before = kept@;
                    kept.push(l);
                    proof {
                        assert(kept@.map_values(|l: FlagLine| l@) =~= before.map_values(
                            |l: FlagLine| l@,
                        ).push(l@));
                    }
                },
            },
        }
        i = i + 1;
    }
    proof {
        assert(text.deep_view().take(text@.len() as int) =~= text.deep_view());
    }
    Some(flags_from_lines(&kept))
}

/// Once a line cannot be read, no longer prefix can be.
proof fn lemma_flag_lines_stuck(ls: Seq<Seq<char>>, i: int)
    requires
        0 <= i < ls.len(),
        spec_flag_lines(ls.take(i + 1)) is None,
    ensures
        spec_flag_lines(ls) is None,
    decreases ls.len() - i,
{
    if i + 1 < ls.len() {
        assert(ls.take(i + 2).drop_last() =~= ls.take(i + 1));
        lemma_flag_lines_stuck(ls, i + 1);
    } else {
        assert(ls.take(i + 1) =~= ls);
    }
}

} // verus!
