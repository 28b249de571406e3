//! The console text of a run: usage help, the processing notice, and
//! the analysis report. Each function pins the exact characters down;
//! printing them is the caller's business.

use vstd::prelude::*;
use vstd::string::StringExecFns;

use crate::decimal::{decimal_of, digit_char, tenths_to_decimal, u64_to_decimal};
use crate::stats::{permille_of, LineStats};

verus! {

/// The three lines of usage help shown when the file path is missing:
/// the complaint, the usage line and the example line.
pub fn usage_lines(program_name: &str) -> (r: Vec<String>)
    ensures
        r@.len() == 3,
        r@[0]@ == "❌ 错误: 缺少文件路径参数"@,
        r@[1]@ == "📖 用法: "@ + program_name@ + " <文件路径>"@,
        r@[2]@ == "💡 示例: "@ + program_name@ + " example.txt"@,
{
    let mut v: Vec<String> = Vec::new();
    v.push(String::from_str("❌ 错误: 缺少文件路径参数"));
    let mut usage = String::from_str("📖 用法: ");
    usage.append(program_name);
    usage.append(" <文件路径>");
    v.push(usage);
    let mut example = String::from_str("💡 示例: ");
    example.append(program_name);
    example.append(" example.txt");
    v.push(example);
    v
}

/// The processing-start line naming the file about to be read.
pub fn processing_line(path: &str) -> (r: String)
    ensures
        r@ == "📊 正在处理文件: "@ + path@,
{
    let mut s = String::from_str("📊 正在处理文件: ");
    s.append(path);
    s
}

/// The analysis report, in order: completion marker, file path, byte
/// size, total lines, non-empty lines, empty lines, and — only when
/// there are lines at all — the empty-line share with one decimal
/// place.
pub fn report_lines(path: &str, size: u64, stats: &LineStats) -> (r: Vec<String>)
    requires
        stats.wf(),
    ensures
        r@.len() == (if stats.total_lines == 0 {
            6int
        } else {
            7int
        }),
        r@[0]@ == "✅ 文件分析完成!"@,
        r@[1]@ == "📄 文件: "@ + path@,
        r@[2]@ == "📏 文件大小: "@ + decimal_of(size as nat) + " bytes"@,
        r@[3]@ == "📊 总行数: "@ + decimal_of(stats.total_lines as nat),
        r@[4]@ == "📝 非空行数: "@ + decimal_of(stats.non_empty_lines as nat),
        r@[5]@ == "🔲 空行数: "@ + decimal_of(stats.empty_lines as nat),
        stats.total_lines > 0 ==> r@[6]@ == "📈 空行占比: "@ + decimal_of(
            permille_of(stats.empty_lines as nat, stats.total_lines as nat) / 10,
        ) + seq!['.'] + seq![
            digit_char(permille_of(stats.empty_lines as nat, stats.total_lines as nat) % 10),
        ] + "%"@,
{
    let mut v: Vec<String> = Vec::new();
    v.push(String::from_str("✅ 文件分析完成!"));
    let mut file_line = String::from_str("📄 文件: ");
    file_line.append(path);
    v.push(file_line);
    let mut size_line = String::from_str("📏 文件大小: ");
    let size_num = u64_to_decimal(size);
    size_line.append(size_num.as_str());
    size_line.append(" bytes");
    v.push(size_line);
    let mut total_line = String::from_str("📊 总行数: ");
    let total_num = u64_to_decimal(stats.total_lines as u64);
    total_line.append(total_num.as_str());
    v.push(total_line);
    let mut non_empty_line = String::from_str("📝 非空行数: ");
    let non_empty_num = u64_to_decimal(stats.non_empty_lines as u64);
    non_empty_line.append(non_empty_num.as_str());
    v.push(non_empty_line);
    let mut empty_line = String::from_str("🔲 空行数: ");
    let empty_num = u64_to_decimal(stats.empty_lines as u64);
    empty_line.append(empty_num.as_str());
    v.push(empty_line);
    if stats.total_lines > 0 {
        let p = stats.empty_permille();
        let mut share_line = String::from_str("📈 空行占比: ");
        let share_num = tenths_to_decimal(p);
        share_line.append(share_num.as_str());
        share_line.append("%");
        v.push(share_line);
    }
    v
}

} // verus!
