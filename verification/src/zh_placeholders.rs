//! Proofs that each translation in `ZH_TRANSLATIONS` keeps the placeholders
//! of its English text.
use vstd::prelude::*;

use crate::i18n::{find_char_from, keeps_placeholders, placeholders_from};
use crate::zh_tables::ZH_TRANSLATIONS;

verus! {

proof fn entry_0()
    ensures
        keeps_placeholders(ZH_TRANSLATIONS@[0]),
{
    reveal_strlit("Press Enter to start the tutorial");
    reveal_strlit("按 Enter 开始教程");
    assert(ZH_TRANSLATIONS@[0] == ("Press Enter to start the tutorial", "按 Enter 开始教程"));
    let k = "Press Enter to start the tutorial"@;
    let v = "按 Enter 开始教程"@;
    reveal_with_fuel(find_char_from, 18);
    assert(find_char_from(k, '{', 33) is None);
    assert(find_char_from(k, '{', 17) is None);
    assert(find_char_from(k, '{', 1) is None);
    assert(find_char_from(k, '{', 0) is None);
    assert(find_char_from(v, '{', 12) is None);
    assert(find_char_from(v, '{', 0) is None);
    reveal_with_fuel(placeholders_from, 2);
}

proof fn entry_1()
    ensures
        keeps_placeholders(ZH_TRANSLATIONS@[1]),
{
    reveal_strlit("How to use this tutorial");
    reveal_strlit("如何使用本教程");
    assert(ZH_TRANSLATIONS@[1] == ("How to use this tutorial", "如何使用本教程"));
    let k = "How to use this tutorial"@;
    let v = "如何使用本教程"@;
    reveal_with_fuel(find_char_from, 18);
    assert(find_char_from(k, '{', 24) is None);
    assert(find_char_from(k, '{', 8) is None);
    assert(find_char_from(k, '{', 0) is None);
    assert(find_char_from(v, '{', 7) is None);
    assert(find_char_from(v, '{', 0) is None);
    reveal_with_fuel(placeholders_from, 2);
}

proof fn entry_2()
    ensures
        keeps_placeholders(ZH_TRANSLATIONS@[2]),
{
    reveal_strlit("• Click the prev and next buttons to navigate.");
    reveal_strlit("• 点击“上一个”和“下一个”按钮进行导航。");
    assert(ZH_TRANSLATIONS@[2] == ("• Click the prev and next buttons to navigate.", "• 点击“上一个”和“下一个”按钮进行导航。"));
    let k = "• Click the prev and next buttons to navigate."@;
    let v = "• 点击“上一个”和“下一个”按钮进行导航。"@;
    reveal_with_fuel(find_char_from, 18);
    assert(find_char_from(k, '{', 46) is None);
    assert(find_char_from(k, '{', 30) is None);
    assert(find_char_from(k, '{', 14) is None);
    assert(find_char_from(k, '{', 0) is None);
    assert(find_char_from(v, '{', 22) is None);
    assert(find_char_from(v, '{', 6) is None);
    assert(find_char_from(v, '{', 0) is None);
    reveal_with_fuel(placeholders_from, 2);
}

proof fn entry_3()
    ensures
        keeps_placeholders(ZH_TRANSLATIONS@[3]),
{
    reveal_strlit("• Press ");
    reveal_strlit("• 按 ");
    assert(ZH_TRANSLATIONS@[3] == ("• Press ", "• 按 "));
    let k = "• Press "@;
    let v = "• 按 "@;
    reveal_with_fuel(find_char_from, 18);
    assert(find_char_from(k, '{', 8) is None);
    assert(find_char_from(k, '{', 0) is None);
    assert(find_char_from(v, '{', 4) is None);
    assert(find_char_from(v, '{', 0) is None);
    reveal_with_fuel(placeholders_from, 2);
}

proof fn entry_4()
    ensures
        keeps_placeholders(ZH_TRANSLATIONS@[4]),
{
    reveal_strlit(" with an empty command buffer to move to the next tutorial screen.");
    reveal_strlit(" 并在命令缓冲区为空时进入下一个教程页面。");
    assert(ZH_TRANSLATIONS@[4] == (" with an empty command buffer to move to the next tutorial screen.", " 并在命令缓冲区为空时进入下一个教程页面。"));
    let k = " with an empty command buffer to move to the next tutorial screen."@;
    let v = " 并在命令缓冲区为空时进入下一个教程页面。"@;
    reveal_with_fuel(find_char_from, 18);
    assert(find_char_from(k, '{', 66) is None);
    assert(find_char_from(k, '{', 50) is None);
    assert(find_char_from(k, '{', 34) is None);
    assert(find_char_from(k, '{', 18) is None);
    assert(find_char_from(k, '{', 2) is None);
    assert(find_char_from(k, '{', 0) is None);
    assert(find_char_from(v, '{', 21) is None);
    assert(find_char_from(v, '{', 5) is None);
    assert(find_char_from(v, '{', 0) is None);
    reveal_with_fuel(placeholders_from, 2);
}

proof fn entry_5()
    ensures
        keeps_placeholders(ZH_TRANSLATIONS@[5]),
{
    reveal_strlit("• Click on underlined text to copy it to your clipboard and command buffer: ");
    reveal_strlit("• 点击带下划线的文本可将其复制到剪贴板和命令缓冲区：");
    assert(ZH_TRANSLATIONS@[5] == ("• Click on underlined text to copy it to your clipboard and command buffer: ", "• 点击带下划线的文本可将其复制到剪贴板和命令缓冲区："));
    let k = "• Click on underlined text to copy it to your clipboard and command buffer: "@;
    let v = "• 点击带下划线的文本可将其复制到剪贴板和命令缓冲区："@;
    reveal_with_fuel(find_char_from, 18);
    assert(find_char_from(k, '{', 76) is None);
    assert(find_char_from(k, '{', 60) is None);
    assert(find_char_from(k, '{', 44) is None);
    assert(find_char_from(k, '{', 28) is None);
    assert(find_char_from(k, '{', 12) is None);
    assert(find_char_from(k, '{', 0) is None);
    assert(find_char_from(v, '{', 27) is None);
    assert(find_char_from(v, '{', 11) is None);
    assert(find_char_from(v, '{', 0) is None);
    reveal_with_fuel(placeholders_from, 2);
}

proof fn entry_6()
    ensures
        keeps_placeholders(ZH_TRANSLATIONS@[6]),
{
    reveal_strlit("• Exit the tutorial at any time with `flyline run-tutorial false`.");
    reveal_strlit("• 随时使用 `flyline run-tutorial false` 退出教程。");
    assert(ZH_TRANSLATIONS@[6] == ("• Exit the tutorial at any time with `flyline run-tutorial false`.", "• 随时使用 `flyline run-tutorial false` 退出教程。"));
    let k = "• Exit the tutorial at any time with `flyline run-tutorial false`."@;
    let v = "• 随时使用 `flyline run-tutorial false` 退出教程。"@;
    reveal_with_fuel(find_char_from, 18);
    assert(find_char_from(k, '{', 66) is None);
    assert(find_char_from(k, '{', 50) is None);
    assert(find_char_from(k, '{', 34) is None);
    assert(find_char_from(k, '{', 18) is None);
    assert(find_char_from(k, '{', 2) is None);
    assert(find_char_from(k, '{', 0) is None);
    assert(find_char_from(v, '{', 41) is None);
    assert(find_char_from(v, '{', 25) is None);
    assert(find_char_from(v, '{', 9) is None);
    assert(find_char_from(v, '{', 0) is None);
    reveal_with_fuel(placeholders_from, 2);
}

proof fn entry_7()
    ensures
        keeps_placeholders(ZH_TRANSLATIONS@[7]),
{
    reveal_strlit("• Remember to append settings to your `~/.bashrc` so they persist!");
    reveal_strlit("• 记得把设置追加到你的 `~/.bashrc`，以便持久生效！");
    assert(ZH_TRANSLATIONS@[7] == ("• Remember to append settings to your `~/.bashrc` so they persist!", "• 记得把设置追加到你的 `~/.bashrc`，以便持久生效！"));
    let k = "• Remember to append settings to your `~/.bashrc` so they persist!"@;
    let v = "• 记得把设置追加到你的 `~/.bashrc`，以便持久生效！"@;
    reveal_with_fuel(find_char_from, 18);
    assert(find_char_from(k, '{', 66) is None);
    assert(find_char_from(k, '{', 50) is None);
    assert(find_char_from(k, '{', 34) is None);
    assert(find_char_from(k, '{', 18) is None);
    assert(find_char_from(k, '{', 2) is None);
    assert(find_char_from(k, '{', 0) is None);
    assert(find_char_from(v, '{', 32) is None);
    assert(find_char_from(v, '{', 16) is None);
    assert(find_char_from(v, '{', 0) is None);
    reveal_with_fuel(placeholders_from, 2);
}

proof fn entry_8()
    ensures
        keeps_placeholders(ZH_TRANSLATIONS@[8]),
{
    reveal_strlit("Recommended Settings");
    reveal_strlit("推荐设置");
    assert(ZH_TRANSLATIONS@[8] == ("Recommended Settings", "推荐设置"));
    let k = "Recommended Settings"@;
    let v = "推荐设置"@;
    reveal_with_fuel(find_char_from, 18);
    assert(find_char_from(k, '{', 20) is None);
    assert(find_char_from(k, '{', 4) is None);
    assert(find_char_from(k, '{', 0) is None);
    assert(find_char_from(v, '{', 4) is None);
    assert(find_char_from(v, '{', 0) is None);
    reveal_with_fuel(placeholders_from, 2);
}

proof fn entry_9()
    ensures
        keeps_placeholders(ZH_TRANSLATIONS@[9]),
{
    reveal_strlit("Flyline will detect your terminal and suggest optimal settings for the best experience:");
    reveal_strlit("Flyline 会检测你的终端，并推荐最佳体验的优化设置：");
    assert(ZH_TRANSLATIONS@[9] == ("Flyline will detect your terminal and suggest optimal settings for the best experience:", "Flyline 会检测你的终端，并推荐最佳体验的优化设置："));
    let k = "Flyline will detect your terminal and suggest optimal settings for the best experience:"@;
    let v = "Flyline 会检测你的终端，并推荐最佳体验的优化设置："@;
    reveal_with_fuel(find_char_from, 18);
    assert(find_char_from(k, '{', 87) is None);
    assert(find_char_from(k, '{', 71) is None);
    assert(find_char_from(k, '{', 55) is None);
    assert(find_char_from(k, '{', 39) is None);
    assert(find_char_from(k, '{', 23) is None);
    assert(find_char_from(k, '{', 7) is None);
    assert(find_char_from(k, '{', 0) is None);
    assert(find_char_from(v, '{', 29) is None);
    assert(find_char_from(v, '{', 13) is None);
    assert(find_char_from(v, '{', 0) is None);
    reveal_with_fuel(placeholders_from, 2);
}

proof fn entry_10()
    ensures
        keeps_placeholders(ZH_TRANSLATIONS@[10]),
{
    reveal_strlit("You are running in VS Code. For the best experience, set these in settings.json (try ctrl+clicking the links):");
    reveal_strlit("你正在 VS Code 中运行。为获得最佳体验，请在 settings.json 中设置以下选项（可尝试 Ctrl+点击链接）：");
    assert(ZH_TRANSLATIONS@[10] == ("You are running in VS Code. For the best experience, set these in settings.json (try ctrl+clicking the links):", "你正在 VS Code 中运行。为获得最佳体验，请在 settings.json 中设置以下选项（可尝试 Ctrl+点击链接）："));
    let k = "You are running in VS Code. For the best experience, set these in settings.json (try ctrl+clicking the links):"@;
    let v = "你正在 VS Code 中运行。为获得最佳体验，请在 settings.json 中设置以下选项（可尝试 Ctrl+点击链接）："@;
    reveal_with_fuel(find_char_from, 18);
    assert(find_char_from(k, '{', 110) is None);
    assert(find_char_from(k, '{', 94) is None);
    assert(find_char_from(k, '{', 78) is None);
    assert(find_char_from(k, '{', 62) is None);
    assert(find_char_from(k, '{', 46) is None);
    assert(find_char_from(k, '{', 30) is None);
    assert(find_char_from(k, '{', 14) is None);
    assert(find_char_from(k, '{', 0) is None);
    assert(find_char_from(v, '{', 64) is None);
    assert(find_char_from(v, '{', 48) is None);
    assert(find_char_from(v, '{', 32) is None);
    assert(find_char_from(v, '{', 16) is None);
    assert(find_char_from(v, '{', 0) is None);
    reveal_with_fuel(placeholders_from, 2);
}

proof fn entry_11()
    ensures
        keeps_placeholders(ZH_TRANSLATIONS@[11]),
{
    reveal_strlit("You are running in Ghostty. Consider setting this configuration to prevent mouse click conflicts:");
    reveal_strlit("你正在 Ghostty 中运行。建议设置以下配置，避免鼠标点击冲突：");
    assert(ZH_TRANSLATIONS@[11] == ("You are running in Ghostty. Consider setting this configuration to prevent mouse click conflicts:", "你正在 Ghostty 中运行。建议设置以下配置，避免鼠标点击冲突："));
    let k = "You are running in Ghostty. Consider setting this configuration to prevent mouse click conflicts:"@;
    let v = "你正在 Ghostty 中运行。建议设置以下配置，避免鼠标点击冲突："@;
    reveal_with_fuel(find_char_from, 18);
    assert(find_char_from(k, '{', 97) is None);
    assert(find_char_from(k, '{', 81) is None);
    assert(find_char_from(k, '{', 65) is None);
    assert(find_char_from(k, '{', 49) is None);
    assert(find_char_from(k, '{', 33) is None);
    assert(find_char_from(k, '{', 17) is None);
    assert(find_char_from(k, '{', 1) is None);
    assert(find_char_from(k, '{', 0) is None);
    assert(find_char_from(v, '{', 34) is None);
    assert(find_char_from(v, '{', 18) is None);
    assert(find_char_from(v, '{', 2) is None);
    assert(find_char_from(v, '{', 0) is None);
    reveal_with_fuel(placeholders_from, 2);
}

proof fn entry_12()
    ensures
        keeps_placeholders(ZH_TRANSLATIONS@[12]),
{
    reveal_strlit("✅ Your terminal supports the Kitty extended keyboard protocol.");
    reveal_strlit("✅ 你的终端支持 Kitty 扩展键盘协议。");
    assert(ZH_TRANSLATIONS@[12] == ("✅ Your terminal supports the Kitty extended keyboard protocol.", "✅ 你的终端支持 Kitty 扩展键盘协议。"));
    let k = "✅ Your terminal supports the Kitty extended keyboard protocol."@;
    let v = "✅ 你的终端支持 Kitty 扩展键盘协议。"@;
    reveal_with_fuel(find_char_from, 18);
    assert(find_char_from(k, '{', 62) is None);
    assert(find_char_from(k, '{', 46) is None);
    assert(find_char_from(k, '{', 30) is None);
    assert(find_char_from(k, '{', 14) is None);
    assert(find_char_from(k, '{', 0) is None);
    assert(find_char_from(v, '{', 22) is None);
    assert(find_char_from(v, '{', 6) is None);
    assert(find_char_from(v, '{', 0) is None);
    reveal_with_fuel(placeholders_from, 2);
}

proof fn entry_13()
    ensures
        keeps_placeholders(ZH_TRANSLATIONS@[13]),
{
    reveal_strlit("⚠ Your terminal may not support the Kitty extended keyboard protocol.");
    reveal_strlit("⚠ 你的终端可能不支持 Kitty 扩展键盘协议。");
    assert(ZH_TRANSLATIONS@[13] == ("⚠ Your terminal may not support the Kitty extended keyboard protocol.", "⚠ 你的终端可能不支持 Kitty 扩展键盘协议。"));
    let k = "⚠ Your terminal may not support the Kitty extended keyboard protocol."@;
    let v = "⚠ 你的终端可能不支持 Kitty 扩展键盘协议。"@;
    reveal_with_fuel(find_char_from, 18);
    assert(find_char_from(k, '{', 69) is None);
    assert(find_char_from(k, '{', 53) is None);
    assert(find_char_from(k, '{', 37) is None);
    assert(find_char_from(k, '{', 21) is None);
    assert(find_char_from(k, '{', 5) is None);
    assert(find_char_from(k, '{', 0) is None);
    assert(find_char_from(v, '{', 25) is None);
    assert(find_char_from(v, '{', 9) is None);
    assert(find_char_from(v, '{', 0) is None);
    reveal_with_fuel(placeholders_from, 2);
}

proof fn entry_14()
    ensures
        keeps_placeholders(ZH_TRANSLATIONS@[14]),
{
    reveal_strlit("  Consider using a terminal emulator that does (kitty, ghostty, wezterm, foot, rio).");
    reveal_strlit("  请考虑使用支持该协议的终端模拟器（kitty、ghostty、wezterm、foot、rio）。");
    assert(ZH_TRANSLATIONS@[14] == ("  Consider using a terminal emulator that does (kitty, ghostty, wezterm, foot, rio).", "  请考虑使用支持该协议的终端模拟器（kitty、ghostty、wezterm、foot、rio）。"));
    let k = "  Consider using a terminal emulator that does (kitty, ghostty, wezterm, foot, rio)."@;
    let v = "  请考虑使用支持该协议的终端模拟器（kitty、ghostty、wezterm、foot、rio）。"@;
    reveal_with_fuel(find_char_from, 18);
    assert(find_char_from(k, '{', 84) is None);
    assert(find_char_from(k, '{', 68) is None);
    assert(find_char_from(k, '{', 52) is None);
    assert(find_char_from(k, '{', 36) is None);
    assert(find_char_from(k, '{', 20) is None);
    assert(find_char_from(k, '{', 4) is None);
    assert(find_char_from(k, '{', 0) is None);
    assert(find_char_from(v, '{', 51) is None);
    assert(find_char_from(v, '{', 35) is None);
    assert(find_char_from(v, '{', 19) is None);
    assert(find_char_from(v, '{', 3) is None);
    assert(find_char_from(v, '{', 0) is None);
    reveal_with_fuel(placeholders_from, 2);
}

proof fn entry_15()
    ensures
        keeps_placeholders(ZH_TRANSLATIONS@[15]),
{
    reveal_strlit("  This enables better key disambiguation for flyline.");
    reveal_strlit("  这能让 flyline 更好地区分按键。");
    assert(ZH_TRANSLATIONS@[15] == ("  This enables better key disambiguation for flyline.", "  这能让 flyline 更好地区分按键。"));
    let k = "  This enables better key disambiguation for flyline."@;
    let v = "  这能让 flyline 更好地区分按键。"@;
    reveal_with_fuel(find_char_from, 18);
    assert(find_char_from(k, '{', 53) is None);
    assert(find_char_from(k, '{', 37) is None);
    assert(find_char_from(k, '{', 21) is None);
    assert(find_char_from(k, '{', 5) is None);
    assert(find_char_from(k, '{', 0) is None);
    assert(find_char_from(v, '{', 22) is None);
    assert(find_char_from(v, '{', 6) is None);
    assert(find_char_from(v, '{', 0) is None);
    reveal_with_fuel(placeholders_from, 2);
}

proof fn entry_16()
    ensures
        keeps_placeholders(ZH_TRANSLATIONS@[16]),
{
    reveal_strlit("💡 We detected that you use Zsh. Consider loading your Zsh history into flyline:");
    reveal_strlit("💡 检测到你正在使用 Zsh。建议将 Zsh 历史记录加载到 flyline：");
    assert(ZH_TRANSLATIONS@[16] == ("💡 We detected that you use Zsh. Consider loading your Zsh history into flyline:", "💡 检测到你正在使用 Zsh。建议将 Zsh 历史记录加载到 flyline："));
    let k = "💡 We detected that you use Zsh. Consider loading your Zsh history into flyline:"@;
    let v = "💡 检测到你正在使用 Zsh。建议将 Zsh 历史记录加载到 flyline："@;
    reveal_with_fuel(find_char_from, 18);
    assert(find_char_from(k, '{', 79) is None);
    assert(find_char_from(k, '{', 63) is None);
    assert(find_char_from(k, '{', 47) is None);
    assert(find_char_from(k, '{', 31) is None);
    assert(find_char_from(k, '{', 15) is None);
    assert(find_char_from(k, '{', 0) is None);
    assert(find_char_from(v, '{', 39) is None);
    assert(find_char_from(v, '{', 23) is None);
    assert(find_char_from(v, '{', 7) is None);
    assert(find_char_from(v, '{', 0) is None);
    reveal_with_fuel(placeholders_from, 2);
}

proof fn entry_17()
    ensures
        keeps_placeholders(ZH_TRANSLATIONS@[17]),
{
    reveal_strlit("💡 How about showing the time in your right prompt:");
    reveal_strlit("💡 不妨在右侧提示符中显示时间：");
    assert(ZH_TRANSLATIONS@[17] == ("💡 How about showing the time in your right prompt:", "💡 不妨在右侧提示符中显示时间："));
    let k = "💡 How about showing the time in your right prompt:"@;
    let v = "💡 不妨在右侧提示符中显示时间："@;
    reveal_with_fuel(find_char_from, 18);
    assert(find_char_from(k, '{', 50) is None);
    assert(find_char_from(k, '{', 34) is None);
    assert(find_char_from(k, '{', 18) is None);
    assert(find_char_from(k, '{', 2) is None);
    assert(find_char_from(k, '{', 0) is None);
    assert(find_char_from(v, '{', 16) is None);
    assert(find_char_from(v, '{', 0) is None);
    reveal_with_fuel(placeholders_from, 2);
}

proof fn entry_18()
    ensures
        keeps_placeholders(ZH_TRANSLATIONS@[18]),
{
    reveal_strlit("Mouse Capture");
    reveal_strlit("鼠标捕获");
    assert(ZH_TRANSLATIONS@[18] == ("Mouse Capture", "鼠标捕获"));
    let k = "Mouse Capture"@;
    let v = "鼠标捕获"@;
    reveal_with_fuel(find_char_from, 18);
    assert(find_char_from(k, '{', 13) is None);
    assert(find_char_from(k, '{', 0) is None);
    assert(find_char_from(v, '{', 4) is None);
    assert(find_char_from(v, '{', 0) is None);
    reveal_with_fuel(placeholders_from, 2);
}

proof fn entry_19()
    ensures
        keeps_placeholders(ZH_TRANSLATIONS@[19]),
{
    reveal_strlit("Flyline needs to capture mouse events so that you can click to move your cursor, select suggestions, and hover for tooltips.");
    reveal_strlit("Flyline 需要捕获鼠标事件，以便你点击移动光标、选择建议，以及悬停查看提示。");
    assert(ZH_TRANSLATIONS@[19] == ("Flyline needs to capture mouse events so that you can click to move your cursor, select suggestions, and hover for tooltips.", "Flyline 需要捕获鼠标事件，以便你点击移动光标、选择建议，以及悬停查看提示。"));
    let k = "Flyline needs to capture mouse events so that you can click to move your cursor, select suggestions, and hover for tooltips."@;
    let v = "Flyline 需要捕获鼠标事件，以便你点击移动光标、选择建议，以及悬停查看提示。"@;
    reveal_with_fuel(find_char_from, 18);
    assert(find_char_from(k, '{', 124) is None);
    assert(find_char_from(k, '{', 108) is None);
    assert(find_char_from(k, '{', 92) is None);
    assert(find_char_from(k, '{', 76) is None);
    assert(find_char_from(k, '{', 60) is None);
    assert(find_char_from(k, '{', 44) is None);
    assert(find_char_from(k, '{', 28) is None);
    assert(find_char_from(k, '{', 12) is None);
    assert(find_char_from(k, '{', 0) is None);
    assert(find_char_from(v, '{', 41) is None);
    assert(find_char_from(v, '{', 25) is None);
    assert(find_char_from(v, '{', 9) is None);
    assert(find_char_from(v, '{', 0) is None);
    reveal_with_fuel(placeholders_from, 2);
}

proof fn entry_20()
    ensures
        keeps_placeholders(ZH_TRANSLATIONS@[20]),
{
    reveal_strlit("Disable mouse capture: click above the viewport or scroll.");
    reveal_strlit("禁用鼠标捕获：点击视口上方或滚动。");
    assert(ZH_TRANSLATIONS@[20] == ("Disable mouse capture: click above the viewport or scroll.", "禁用鼠标捕获：点击视口上方或滚动。"));
    let k = "Disable mouse capture: click above the viewport or scroll."@;
    let v = "禁用鼠标捕获：点击视口上方或滚动。"@;
    reveal_with_fuel(find_char_from, 18);
    assert(find_char_from(k, '{', 58) is None);
    assert(find_char_from(k, '{', 42) is None);
    assert(find_char_from(k, '{', 26) is None);
    assert(find_char_from(k, '{', 10) is None);
    assert(find_char_from(k, '{', 0) is None);
    assert(find_char_from(v, '{', 17) is None);
    assert(find_char_from(v, '{', 1) is None);
    assert(find_char_from(v, '{', 0) is None);
    reveal_with_fuel(placeholders_from, 2);
}

proof fn entry_21()
    ensures
        keeps_placeholders(ZH_TRANSLATIONS@[21]),
{
    reveal_strlit("Toggle with ");
    reveal_strlit("使用 ");
    assert(ZH_TRANSLATIONS@[21] == ("Toggle with ", "使用 "));
    let k = "Toggle with "@;
    let v = "使用 "@;
    reveal_with_fuel(find_char_from, 18);
    assert(find_char_from(k, '{', 12) is None);
    assert(find_char_from(k, '{', 0) is None);
    assert(find_char_from(v, '{', 3) is None);
    assert(find_char_from(v, '{', 0) is None);
    reveal_with_fuel(placeholders_from, 2);
}

proof fn entry_22()
    ensures
        keeps_placeholders(ZH_TRANSLATIONS@[22]),
{
    reveal_strlit("Typing enables mouse capture.");
    reveal_strlit("开始输入将重新启用鼠标捕获。");
    assert(ZH_TRANSLATIONS@[22] == ("Typing enables mouse capture.", "开始输入将重新启用鼠标捕获。"));
    let k = "Typing enables mouse capture."@;
    let v = "开始输入将重新启用鼠标捕获。"@;
    reveal_with_fuel(find_char_from, 18);
    assert(find_char_from(k, '{', 29) is None);
    assert(find_char_from(k, '{', 13) is None);
    assert(find_char_from(k, '{', 0) is None);
    assert(find_char_from(v, '{', 14) is None);
    assert(find_char_from(v, '{', 0) is None);
    reveal_with_fuel(placeholders_from, 2);
}

proof fn entry_23()
    ensures
        keeps_placeholders(ZH_TRANSLATIONS@[23]),
{
    reveal_strlit("Switch mouse interaction modes with `flyline mouse --mode smart/simple/disabled`.");
    reveal_strlit("使用 `flyline mouse --mode smart/simple/disabled` 切换鼠标交互模式。");
    assert(ZH_TRANSLATIONS@[23] == ("Switch mouse interaction modes with `flyline mouse --mode smart/simple/disabled`.", "使用 `flyline mouse --mode smart/simple/disabled` 切换鼠标交互模式。"));
    let k = "Switch mouse interaction modes with `flyline mouse --mode smart/simple/disabled`."@;
    let v = "使用 `flyline mouse --mode smart/simple/disabled` 切换鼠标交互模式。"@;
    reveal_with_fuel(find_char_from, 18);
    assert(find_char_from(k, '{', 81) is None);
    assert(find_char_from(k, '{', 65) is None);
    assert(find_char_from(k, '{', 49) is None);
    assert(find_char_from(k, '{', 33) is None);
    assert(find_char_from(k, '{', 17) is None);
    assert(find_char_from(k, '{', 1) is None);
    assert(find_char_from(k, '{', 0) is None);
    assert(find_char_from(v, '{', 57) is None);
    assert(find_char_from(v, '{', 41) is None);
    assert(find_char_from(v, '{', 25) is None);
    assert(find_char_from(v, '{', 9) is None);
    assert(find_char_from(v, '{', 0) is None);
    reveal_with_fuel(placeholders_from, 2);
}

proof fn entry_24()
    ensures
        keeps_placeholders(ZH_TRANSLATIONS@[24]),
{
    reveal_strlit("💡 Consider displaying the mouse capture mode in your right prompt:");
    reveal_strlit("💡 考虑在右侧提示符中显示鼠标捕获模式：");
    assert(ZH_TRANSLATIONS@[24] == ("💡 Consider displaying the mouse capture mode in your right prompt:", "💡 考虑在右侧提示符中显示鼠标捕获模式："));
    let k = "💡 Consider displaying the mouse capture mode in your right prompt:"@;
    let v = "💡 考虑在右侧提示符中显示鼠标捕获模式："@;
    reveal_with_fuel(find_char_from, 18);
    assert(find_char_from(k, '{', 66) is None);
    assert(find_char_from(k, '{', 50) is None);
    assert(find_char_from(k, '{', 34) is None);
    assert(find_char_from(k, '{', 18) is None);
    assert(find_char_from(k, '{', 2) is None);
    assert(find_char_from(k, '{', 0) is None);
    assert(find_char_from(v, '{', 20) is None);
    assert(find_char_from(v, '{', 4) is None);
    assert(find_char_from(v, '{', 0) is None);
    reveal_with_fuel(placeholders_from, 2);
}

proof fn entry_25()
    ensures
        keeps_placeholders(ZH_TRANSLATIONS@[25]),
{
    reveal_strlit("Text Selection & Clipboard");
    reveal_strlit("文本选择与剪贴板");
    assert(ZH_TRANSLATIONS@[25] == ("Text Selection & Clipboard", "文本选择与剪贴板"));
    let k = "Text Selection & Clipboard"@;
    let v = "文本选择与剪贴板"@;
    reveal_with_fuel(find_char_from, 18);
    assert(find_char_from(k, '{', 26) is None);
    assert(find_char_from(k, '{', 10) is None);
    assert(find_char_from(k, '{', 0) is None);
    assert(find_char_from(v, '{', 8) is None);
    assert(find_char_from(v, '{', 0) is None);
    reveal_with_fuel(placeholders_from, 2);
}

proof fn entry_26()
    ensures
        keeps_placeholders(ZH_TRANSLATIONS@[26]),
{
    reveal_strlit("• Select text by dragging the mouse or using Shift + Arrow keys.");
    reveal_strlit("• 拖拽鼠标或使用 Shift + 方向键选择文本。");
    assert(ZH_TRANSLATIONS@[26] == ("• Select text by dragging the mouse or using Shift + Arrow keys.", "• 拖拽鼠标或使用 Shift + 方向键选择文本。"));
    let k = "• Select text by dragging the mouse or using Shift + Arrow keys."@;
    let v = "• 拖拽鼠标或使用 Shift + 方向键选择文本。"@;
    reveal_with_fuel(find_char_from, 18);
    assert(find_char_from(k, '{', 64) is None);
    assert(find_char_from(k, '{', 48) is None);
    assert(find_char_from(k, '{', 32) is None);
    assert(find_char_from(k, '{', 16) is None);
    assert(find_char_from(k, '{', 0) is None);
    assert(find_char_from(v, '{', 26) is None);
    assert(find_char_from(v, '{', 10) is None);
    assert(find_char_from(v, '{', 0) is None);
    reveal_with_fuel(placeholders_from, 2);
}

proof fn entry_27()
    ensures
        keeps_placeholders(ZH_TRANSLATIONS@[27]),
{
    reveal_strlit("• Right-click to open the context menu to Copy, Cut, or Paste.");
    reveal_strlit("• 右键打开上下文菜单进行复制、剪切或粘贴。");
    assert(ZH_TRANSLATIONS@[27] == ("• Right-click to open the context menu to Copy, Cut, or Paste.", "• 右键打开上下文菜单进行复制、剪切或粘贴。"));
    let k = "• Right-click to open the context menu to Copy, Cut, or Paste."@;
    let v = "• 右键打开上下文菜单进行复制、剪切或粘贴。"@;
    reveal_with_fuel(find_char_from, 18);
    assert(find_char_from(k, '{', 62) is None);
    assert(find_char_from(k, '{', 46) is None);
    assert(find_char_from(k, '{', 30) is None);
    assert(find_char_from(k, '{', 14) is None);
    assert(find_char_from(k, '{', 0) is None);
    assert(find_char_from(v, '{', 22) is None);
    assert(find_char_from(v, '{', 6) is None);
    assert(find_char_from(v, '{', 0) is None);
    reveal_with_fuel(placeholders_from, 2);
}

proof fn entry_28()
    ensures
        keeps_placeholders(ZH_TRANSLATIONS@[28]),
{
    reveal_strlit("• You can also right-click a history entry or a prompt folder to copy it directly.");
    reveal_strlit("• 也可以右键历史记录条目或提示符目录直接复制。");
    assert(ZH_TRANSLATIONS@[28] == ("• You can also right-click a history entry or a prompt folder to copy it directly.", "• 也可以右键历史记录条目或提示符目录直接复制。"));
    let k = "• You can also right-click a history entry or a prompt folder to copy it directly."@;
    let v = "• 也可以右键历史记录条目或提示符目录直接复制。"@;
    reveal_with_fuel(find_char_from, 18);
    assert(find_char_from(k, '{', 82) is None);
    assert(find_char_from(k, '{', 66) is None);
    assert(find_char_from(k, '{', 50) is None);
    assert(find_char_from(k, '{', 34) is None);
    assert(find_char_from(k, '{', 18) is None);
    assert(find_char_from(k, '{', 2) is None);
    assert(find_char_from(k, '{', 0) is None);
    assert(find_char_from(v, '{', 24) is None);
    assert(find_char_from(v, '{', 8) is None);
    assert(find_char_from(v, '{', 0) is None);
    reveal_with_fuel(placeholders_from, 2);
}

proof fn entry_29()
    ensures
        keeps_placeholders(ZH_TRANSLATIONS@[29]),
{
    reveal_strlit("• Ctrl+X, Ctrl+C, and Ctrl+V work as expected.");
    reveal_strlit("• Ctrl+X、Ctrl+C 和 Ctrl+V 均按预期工作。");
    assert(ZH_TRANSLATIONS@[29] == ("• Ctrl+X, Ctrl+C, and Ctrl+V work as expected.", "• Ctrl+X、Ctrl+C 和 Ctrl+V 均按预期工作。"));
    let k = "• Ctrl+X, Ctrl+C, and Ctrl+V work as expected."@;
    let v = "• Ctrl+X、Ctrl+C 和 Ctrl+V 均按预期工作。"@;
    reveal_with_fuel(find_char_from, 18);
    assert(find_char_from(k, '{', 46) is None);
    assert(find_char_from(k, '{', 30) is None);
    assert(find_char_from(k, '{', 14) is None);
    assert(find_char_from(k, '{', 0) is None);
    assert(find_char_from(v, '{', 32) is None);
    assert(find_char_from(v, '{', 16) is None);
    assert(find_char_from(v, '{', 0) is None);
    reveal_with_fuel(placeholders_from, 2);
}

proof fn entry_30()
    ensures
        keeps_placeholders(ZH_TRANSLATIONS@[30]),
{
    reveal_strlit("• Ctrl+C will copy when text is selected and if not, it will cancel your command.");
    reveal_strlit("• 选中文本时 Ctrl+C 会复制；未选中时则取消当前命令。");
    assert(ZH_TRANSLATIONS@[30] == ("• Ctrl+C will copy when text is selected and if not, it will cancel your command.", "• 选中文本时 Ctrl+C 会复制；未选中时则取消当前命令。"));
    let k = "• Ctrl+C will copy when text is selected and if not, it will cancel your command."@;
    let v = "• 选中文本时 Ctrl+C 会复制；未选中时则取消当前命令。"@;
    reveal_with_fuel(find_char_from, 18);
    assert(find_char_from(k, '{', 81) is None);
    assert(find_char_from(k, '{', 65) is None);
    assert(find_char_from(k, '{', 49) is None);
    assert(find_char_from(k, '{', 33) is None);
    assert(find_char_from(k, '{', 17) is None);
    assert(find_char_from(k, '{', 1) is None);
    assert(find_char_from(k, '{', 0) is None);
    assert(find_char_from(v, '{', 31) is None);
    assert(find_char_from(v, '{', 15) is None);
    assert(find_char_from(v, '{', 0) is None);
    reveal_with_fuel(placeholders_from, 2);
}

proof fn entry_31()
    ensures
        keeps_placeholders(ZH_TRANSLATIONS@[31]),
{
    reveal_strlit("Auto Suggestions");
    reveal_strlit("自动建议");
    assert(ZH_TRANSLATIONS@[31] == ("Auto Suggestions", "自动建议"));
    let k = "Auto Suggestions"@;
    let v = "自动建议"@;
    reveal_with_fuel(find_char_from, 18);
    assert(find_char_from(k, '{', 16) is None);
    assert(find_char_from(k, '{', 0) is None);
    assert(find_char_from(v, '{', 4) is None);
    assert(find_char_from(v, '{', 0) is None);
    reveal_with_fuel(placeholders_from, 2);
}

proof fn entry_32()
    ensures
        keeps_placeholders(ZH_TRANSLATIONS@[32]),
{
    reveal_strlit("As you type, flyline shows Intellisense style auto-suggestions based on Bash tab completions.");
    reveal_strlit("输入时，flyline 会基于 Bash 的 Tab 补全显示类似 Intellisense 的自动建议。");
    assert(ZH_TRANSLATIONS@[32] == ("As you type, flyline shows Intellisense style auto-suggestions based on Bash tab completions.", "输入时，flyline 会基于 Bash 的 Tab 补全显示类似 Intellisense 的自动建议。"));
    let k = "As you type, flyline shows Intellisense style auto-suggestions based on Bash tab completions."@;
    let v = "输入时，flyline 会基于 Bash 的 Tab 补全显示类似 Intellisense 的自动建议。"@;
    reveal_with_fuel(find_char_from, 18);
    assert(find_char_from(k, '{', 93) is None);
    assert(find_char_from(k, '{', 77) is None);
    assert(find_char_from(k, '{', 61) is None);
    assert(find_char_from(k, '{', 45) is None);
    assert(find_char_from(k, '{', 29) is None);
    assert(find_char_from(k, '{', 13) is None);
    assert(find_char_from(k, '{', 0) is None);
    assert(find_char_from(v, '{', 53) is None);
    assert(find_char_from(v, '{', 37) is None);
    assert(find_char_from(v, '{', 21) is None);
    assert(find_char_from(v, '{', 5) is None);
    assert(find_char_from(v, '{', 0) is None);
    reveal_with_fuel(placeholders_from, 2);
}

proof fn entry_33()
    ensures
        keeps_placeholders(ZH_TRANSLATIONS@[33]),
{
    reveal_strlit("Try typing `grep --` and watch suggestions appear.");
    reveal_strlit("试试输入 `grep --`，观察建议出现。");
    assert(ZH_TRANSLATIONS@[33] == ("Try typing `grep --` and watch suggestions appear.", "试试输入 `grep --`，观察建议出现。"));
    let k = "Try typing `grep --` and watch suggestions appear."@;
    let v = "试试输入 `grep --`，观察建议出现。"@;
    reveal_with_fuel(find_char_from, 18);
    assert(find_char_from(k, '{', 50) is None);
    assert(find_char_from(k, '{', 34) is None);
    assert(find_char_from(k, '{', 18) is None);
    assert(find_char_from(k, '{', 2) is None);
    assert(find_char_from(k, '{', 0) is None);
    assert(find_char_from(v, '{', 22) is None);
    assert(find_char_from(v, '{', 6) is None);
    assert(find_char_from(v, '{', 0) is None);
    reveal_with_fuel(placeholders_from, 2);
}

proof fn entry_34()
    ensures
        keeps_placeholders(ZH_TRANSLATIONS@[34]),
{
    reveal_strlit("You can disable these auto-suggestions by running:");
    reveal_strlit("你可以通过运行以下命令禁用这些自动建议：");
    assert(ZH_TRANSLATIONS@[34] == ("You can disable these auto-suggestions by running:", "你可以通过运行以下命令禁用这些自动建议："));
    let k = "You can disable these auto-suggestions by running:"@;
    let v = "你可以通过运行以下命令禁用这些自动建议："@;
    reveal_with_fuel(find_char_from, 18);
    assert(find_char_from(k, '{', 50) is None);
    assert(find_char_from(k, '{', 34) is None);
    assert(find_char_from(k, '{', 18) is None);
    assert(find_char_from(k, '{', 2) is None);
    assert(find_char_from(k, '{', 0) is None);
    assert(find_char_from(v, '{', 20) is None);
    assert(find_char_from(v, '{', 4) is None);
    assert(find_char_from(v, '{', 0) is None);
    reveal_with_fuel(placeholders_from, 2);
}

proof fn entry_35()
    ensures
        keeps_placeholders(ZH_TRANSLATIONS@[35]),
{
    reveal_strlit("Fuzzy History Search");
    reveal_strlit("模糊历史搜索");
    assert(ZH_TRANSLATIONS@[35] == ("Fuzzy History Search", "模糊历史搜索"));
    let k = "Fuzzy History Search"@;
    let v = "模糊历史搜索"@;
    reveal_with_fuel(find_char_from, 18);
    assert(find_char_from(k, '{', 20) is None);
    assert(find_char_from(k, '{', 4) is None);
    assert(find_char_from(k, '{', 0) is None);
    assert(find_char_from(v, '{', 6) is None);
    assert(find_char_from(v, '{', 0) is None);
    reveal_with_fuel(placeholders_from, 2);
}

proof fn entry_36()
    ensures
        keeps_placeholders(ZH_TRANSLATIONS@[36]),
{
    reveal_strlit(" to open fuzzy history search.");
    reveal_strlit(" 打开模糊历史搜索。");
    assert(ZH_TRANSLATIONS@[36] == (" to open fuzzy history search.", " 打开模糊历史搜索。"));
    let k = " to open fuzzy history search."@;
    let v = " 打开模糊历史搜索。"@;
    reveal_with_fuel(find_char_from, 18);
    assert(find_char_from(k, '{', 30) is None);
    assert(find_char_from(k, '{', 14) is None);
    assert(find_char_from(k, '{', 0) is None);
    assert(find_char_from(v, '{', 10) is None);
    assert(find_char_from(v, '{', 0) is None);
    reveal_with_fuel(placeholders_from, 2);
}

proof fn entry_37()
    ensures
        keeps_placeholders(ZH_TRANSLATIONS@[37]),
{
    reveal_strlit("Type to filter, use ");
    reveal_strlit("输入以过滤，使用 ");
    assert(ZH_TRANSLATIONS@[37] == ("Type to filter, use ", "输入以过滤，使用 "));
    let k = "Type to filter, use "@;
    let v = "输入以过滤，使用 "@;
    reveal_with_fuel(find_char_from, 18);
    assert(find_char_from(k, '{', 20) is None);
    assert(find_char_from(k, '{', 4) is None);
    assert(find_char_from(k, '{', 0) is None);
    assert(find_char_from(v, '{', 9) is None);
    assert(find_char_from(v, '{', 0) is None);
    reveal_with_fuel(placeholders_from, 2);
}

proof fn entry_38()
    ensures
        keeps_placeholders(ZH_TRANSLATIONS@[38]),
{
    reveal_strlit("arrow keys");
    reveal_strlit("方向键");
    assert(ZH_TRANSLATIONS@[38] == ("arrow keys", "方向键"));
    let k = "arrow keys"@;
    let v = "方向键"@;
    reveal_with_fuel(find_char_from, 18);
    assert(find_char_from(k, '{', 10) is None);
    assert(find_char_from(k, '{', 0) is None);
    assert(find_char_from(v, '{', 3) is None);
    assert(find_char_from(v, '{', 0) is None);
    reveal_with_fuel(placeholders_from, 2);
}

proof fn entry_39()
    ensures
        keeps_placeholders(ZH_TRANSLATIONS@[39]),
{
    reveal_strlit(" to browse results.");
    reveal_strlit(" 浏览结果。");
    assert(ZH_TRANSLATIONS@[39] == (" to browse results.", " 浏览结果。"));
    let k = " to browse results."@;
    let v = " 浏览结果。"@;
    reveal_with_fuel(find_char_from, 18);
    assert(find_char_from(k, '{', 19) is None);
    assert(find_char_from(k, '{', 3) is None);
    assert(find_char_from(k, '{', 0) is None);
    assert(find_char_from(v, '{', 6) is None);
    assert(find_char_from(v, '{', 0) is None);
    reveal_with_fuel(placeholders_from, 2);
}

proof fn entry_40()
    ensures
        keeps_placeholders(ZH_TRANSLATIONS@[40]),
{
    reveal_strlit(" to accept the selected command for editing.");
    reveal_strlit(" 接受选中的命令以进行编辑。");
    assert(ZH_TRANSLATIONS@[40] == (" to accept the selected command for editing.", " 接受选中的命令以进行编辑。"));
    let k = " to accept the selected command for editing."@;
    let v = " 接受选中的命令以进行编辑。"@;
    reveal_with_fuel(find_char_from, 18);
    assert(find_char_from(k, '{', 44) is None);
    assert(find_char_from(k, '{', 28) is None);
    assert(find_char_from(k, '{', 12) is None);
    assert(find_char_from(k, '{', 0) is None);
    assert(find_char_from(v, '{', 14) is None);
    assert(find_char_from(v, '{', 0) is None);
    reveal_with_fuel(placeholders_from, 2);
}

proof fn entry_41()
    ensures
        keeps_placeholders(ZH_TRANSLATIONS@[41]),
{
    reveal_strlit(" to cancel.");
    reveal_strlit(" 取消。");
    assert(ZH_TRANSLATIONS@[41] == (" to cancel.", " 取消。"));
    let k = " to cancel."@;
    let v = " 取消。"@;
    reveal_with_fuel(find_char_from, 18);
    assert(find_char_from(k, '{', 11) is None);
    assert(find_char_from(k, '{', 0) is None);
    assert(find_char_from(v, '{', 4) is None);
    assert(find_char_from(v, '{', 0) is None);
    reveal_with_fuel(placeholders_from, 2);
}

proof fn entry_42()
    ensures
        keeps_placeholders(ZH_TRANSLATIONS@[42]),
{
    reveal_strlit("Keybindings");
    reveal_strlit("按键绑定");
    assert(ZH_TRANSLATIONS@[42] == ("Keybindings", "按键绑定"));
    let k = "Keybindings"@;
    let v = "按键绑定"@;
    reveal_with_fuel(find_char_from, 18);
    assert(find_char_from(k, '{', 11) is None);
    assert(find_char_from(k, '{', 0) is None);
    assert(find_char_from(v, '{', 4) is None);
    assert(find_char_from(v, '{', 0) is None);
    reveal_with_fuel(placeholders_from, 2);
}

proof fn entry_43()
    ensures
        keeps_placeholders(ZH_TRANSLATIONS@[43]),
{
    reveal_strlit(" to see all current keybindings.");
    reveal_strlit(" 查看当前所有按键绑定。");
    assert(ZH_TRANSLATIONS@[43] == (" to see all current keybindings.", " 查看当前所有按键绑定。"));
    let k = " to see all current keybindings."@;
    let v = " 查看当前所有按键绑定。"@;
    reveal_with_fuel(find_char_from, 18);
    assert(find_char_from(k, '{', 32) is None);
    assert(find_char_from(k, '{', 16) is None);
    assert(find_char_from(k, '{', 0) is None);
    assert(find_char_from(v, '{', 12) is None);
    assert(find_char_from(v, '{', 0) is None);
    reveal_with_fuel(placeholders_from, 2);
}

proof fn entry_44()
    ensures
        keeps_placeholders(ZH_TRANSLATIONS@[44]),
{
    reveal_strlit("Common custom keybindings:");
    reveal_strlit("常用自定义按键绑定：");
    assert(ZH_TRANSLATIONS@[44] == ("Common custom keybindings:", "常用自定义按键绑定："));
    let k = "Common custom keybindings:"@;
    let v = "常用自定义按键绑定："@;
    reveal_with_fuel(find_char_from, 18);
    assert(find_char_from(k, '{', 26) is None);
    assert(find_char_from(k, '{', 10) is None);
    assert(find_char_from(k, '{', 0) is None);
    assert(find_char_from(v, '{', 10) is None);
    assert(find_char_from(v, '{', 0) is None);
    reveal_with_fuel(placeholders_from, 2);
}

proof fn entry_45()
    ensures
        keeps_placeholders(ZH_TRANSLATIONS@[45]),
{
    reveal_strlit("• Accept and immediately run the selected fuzzy history entry (instead of accepting for editing):");
    reveal_strlit("• 接受并立即运行选中的模糊历史条目（而不是先接受编辑）：");
    assert(ZH_TRANSLATIONS@[45] == ("• Accept and immediately run the selected fuzzy history entry (instead of accepting for editing):", "• 接受并立即运行选中的模糊历史条目（而不是先接受编辑）："));
    let k = "• Accept and immediately run the selected fuzzy history entry (instead of accepting for editing):"@;
    let v = "• 接受并立即运行选中的模糊历史条目（而不是先接受编辑）："@;
    reveal_with_fuel(find_char_from, 18);
    assert(find_char_from(k, '{', 97) is None);
    assert(find_char_from(k, '{', 81) is None);
    assert(find_char_from(k, '{', 65) is None);
    assert(find_char_from(k, '{', 49) is None);
    assert(find_char_from(k, '{', 33) is None);
    assert(find_char_from(k, '{', 17) is None);
    assert(find_char_from(k, '{', 1) is None);
    assert(find_char_from(k, '{', 0) is None);
    assert(find_char_from(v, '{', 29) is None);
    assert(find_char_from(v, '{', 13) is None);
    assert(find_char_from(v, '{', 0) is None);
    reveal_with_fuel(placeholders_from, 2);
}

proof fn entry_46()
    ensures
        keeps_placeholders(ZH_TRANSLATIONS@[46]),
{
    reveal_strlit("• Temporarily dismiss an inline history suggestion with ");
    reveal_strlit("• 使用 ");
    assert(ZH_TRANSLATIONS@[46] == ("• Temporarily dismiss an inline history suggestion with ", "• 使用 "));
    let k = "• Temporarily dismiss an inline history suggestion with "@;
    let v = "• 使用 "@;
    reveal_with_fuel(find_char_from, 18);
    assert(find_char_from(k, '{', 56) is None);
    assert(find_char_from(k, '{', 40) is None);
    assert(find_char_from(k, '{', 24) is None);
    assert(find_char_from(k, '{', 8) is None);
    assert(find_char_from(k, '{', 0) is None);
    assert(find_char_from(v, '{', 5) is None);
    assert(find_char_from(v, '{', 0) is None);
    reveal_with_fuel(placeholders_from, 2);
}

proof fn entry_47()
    ensures
        keeps_placeholders(ZH_TRANSLATIONS@[47]),
{
    reveal_strlit("• Accept an inline history suggestion with ");
    reveal_strlit("• 使用 ");
    assert(ZH_TRANSLATIONS@[47] == ("• Accept an inline history suggestion with ", "• 使用 "));
    let k = "• Accept an inline history suggestion with "@;
    let v = "• 使用 "@;
    reveal_with_fuel(find_char_from, 18);
    assert(find_char_from(k, '{', 43) is None);
    assert(find_char_from(k, '{', 27) is None);
    assert(find_char_from(k, '{', 11) is None);
    assert(find_char_from(k, '{', 0) is None);
    assert(find_char_from(v, '{', 5) is None);
    assert(find_char_from(v, '{', 0) is None);
    reveal_with_fuel(placeholders_from, 2);
}

proof fn entry_48()
    ensures
        keeps_placeholders(ZH_TRANSLATIONS@[48]),
{
    reveal_strlit("Fuzzy Completions");
    reveal_strlit("模糊补全");
    assert(ZH_TRANSLATIONS@[48] == ("Fuzzy Completions", "模糊补全"));
    let k = "Fuzzy Completions"@;
    let v = "模糊补全"@;
    reveal_with_fuel(find_char_from, 18);
    assert(find_char_from(k, '{', 17) is None);
    assert(find_char_from(k, '{', 1) is None);
    assert(find_char_from(k, '{', 0) is None);
    assert(find_char_from(v, '{', 4) is None);
    assert(find_char_from(v, '{', 0) is None);
    reveal_with_fuel(placeholders_from, 2);
}

proof fn entry_49()
    ensures
        keeps_placeholders(ZH_TRANSLATIONS@[49]),
{
    reveal_strlit("Type ");
    reveal_strlit("输入 ");
    assert(ZH_TRANSLATIONS@[49] == ("Type ", "输入 "));
    let k = "Type "@;
    let v = "输入 "@;
    reveal_with_fuel(find_char_from, 18);
    assert(find_char_from(k, '{', 5) is None);
    assert(find_char_from(k, '{', 0) is None);
    assert(find_char_from(v, '{', 3) is None);
    assert(find_char_from(v, '{', 0) is None);
    reveal_with_fuel(placeholders_from, 2);
}

proof fn entry_50()
    ensures
        keeps_placeholders(ZH_TRANSLATIONS@[50]),
{
    reveal_strlit(" and press ");
    reveal_strlit(" 并按 ");
    assert(ZH_TRANSLATIONS@[50] == (" and press ", " 并按 "));
    let k = " and press "@;
    let v = " 并按 "@;
    reveal_with_fuel(find_char_from, 18);
    assert(find_char_from(k, '{', 11) is None);
    assert(find_char_from(k, '{', 0) is None);
    assert(find_char_from(v, '{', 4) is None);
    assert(find_char_from(v, '{', 0) is None);
    reveal_with_fuel(placeholders_from, 2);
}

proof fn entry_51()
    ensures
        keeps_placeholders(ZH_TRANSLATIONS@[51]),
{
    reveal_strlit(" to trigger completions. If nothing comes up, first set normal Bash completions (");
    reveal_strlit(" 触发补全。如果没有出现补全，请先安装 Bash 常规补全（");
    assert(ZH_TRANSLATIONS@[51] == (" to trigger completions. If nothing comes up, first set normal Bash completions (", " 触发补全。如果没有出现补全，请先安装 Bash 常规补全（"));
    let k = " to trigger completions. If nothing comes up, first set normal Bash completions ("@;
    let v = " 触发补全。如果没有出现补全，请先安装 Bash 常规补全（"@;
    reveal_with_fuel(find_char_from, 18);
    assert(find_char_from(k, '{', 81) is None);
    assert(find_char_from(k, '{', 65) is None);
    assert(find_char_from(k, '{', 49) is None);
    assert(find_char_from(k, '{', 33) is None);
    assert(find_char_from(k, '{', 17) is None);
    assert(find_char_from(k, '{', 1) is None);
    assert(find_char_from(k, '{', 0) is None);
    assert(find_char_from(v, '{', 30) is None);
    assert(find_char_from(v, '{', 14) is None);
    assert(find_char_from(v, '{', 0) is None);
    reveal_with_fuel(placeholders_from, 2);
}

proof fn entry_52()
    ensures
        keeps_placeholders(ZH_TRANSLATIONS@[52]),
{
    reveal_strlit("Type to filter suggestions, use ");
    reveal_strlit("输入过滤建议，使用 ");
    assert(ZH_TRANSLATIONS@[52] == ("Type to filter suggestions, use ", "输入过滤建议，使用 "));
    let k = "Type to filter suggestions, use "@;
    let v = "输入过滤建议，使用 "@;
    reveal_with_fuel(find_char_from, 18);
    assert(find_char_from(k, '{', 32) is None);
    assert(find_char_from(k, '{', 16) is None);
    assert(find_char_from(k, '{', 0) is None);
    assert(find_char_from(v, '{', 10) is None);
    assert(find_char_from(v, '{', 0) is None);
    reveal_with_fuel(placeholders_from, 2);
}

proof fn entry_53()
    ensures
        keeps_placeholders(ZH_TRANSLATIONS@[53]),
{
    reveal_strlit(" or your mouse to navigate.");
    reveal_strlit(" 或鼠标进行导航。");
    assert(ZH_TRANSLATIONS@[53] == (" or your mouse to navigate.", " 或鼠标进行导航。"));
    let k = " or your mouse to navigate."@;
    let v = " 或鼠标进行导航。"@;
    reveal_with_fuel(find_char_from, 18);
    assert(find_char_from(k, '{', 27) is None);
    assert(find_char_from(k, '{', 11) is None);
    assert(find_char_from(k, '{', 0) is None);
    assert(find_char_from(v, '{', 9) is None);
    assert(find_char_from(v, '{', 0) is None);
    reveal_with_fuel(placeholders_from, 2);
}

proof fn entry_54()
    ensures
        keeps_placeholders(ZH_TRANSLATIONS@[54]),
{
    reveal_strlit(" or click a suggestion to accept it.");
    reveal_strlit(" 或点击建议以接受。");
    assert(ZH_TRANSLATIONS@[54] == (" or click a suggestion to accept it.", " 或点击建议以接受。"));
    let k = " or click a suggestion to accept it."@;
    let v = " 或点击建议以接受。"@;
    reveal_with_fuel(find_char_from, 18);
    assert(find_char_from(k, '{', 36) is None);
    assert(find_char_from(k, '{', 20) is None);
    assert(find_char_from(k, '{', 4) is None);
    assert(find_char_from(k, '{', 0) is None);
    assert(find_char_from(v, '{', 10) is None);
    assert(find_char_from(v, '{', 0) is None);
    reveal_with_fuel(placeholders_from, 2);
}

proof fn entry_55()
    ensures
        keeps_placeholders(ZH_TRANSLATIONS@[55]),
{
    reveal_strlit("Setting Theme Colours");
    reveal_strlit("设置主题颜色");
    assert(ZH_TRANSLATIONS@[55] == ("Setting Theme Colours", "设置主题颜色"));
    let k = "Setting Theme Colours"@;
    let v = "设置主题颜色"@;
    reveal_with_fuel(find_char_from, 18);
    assert(find_char_from(k, '{', 21) is None);
    assert(find_char_from(k, '{', 5) is None);
    assert(find_char_from(k, '{', 0) is None);
    assert(find_char_from(v, '{', 6) is None);
    assert(find_char_from(v, '{', 0) is None);
    reveal_with_fuel(placeholders_from, 2);
}

proof fn entry_56()
    ensures
        keeps_placeholders(ZH_TRANSLATIONS@[56]),
{
    reveal_strlit("Customise your colour theme with the `flyline set-style` command.");
    reveal_strlit("使用 `flyline set-style` 命令自定义颜色主题。");
    assert(ZH_TRANSLATIONS@[56] == ("Customise your colour theme with the `flyline set-style` command.", "使用 `flyline set-style` 命令自定义颜色主题。"));
    let k = "Customise your colour theme with the `flyline set-style` command."@;
    let v = "使用 `flyline set-style` 命令自定义颜色主题。"@;
    reveal_with_fuel(find_char_from, 18);
    assert(find_char_from(k, '{', 65) is None);
    assert(find_char_from(k, '{', 49) is None);
    assert(find_char_from(k, '{', 33) is None);
    assert(find_char_from(k, '{', 17) is None);
    assert(find_char_from(k, '{', 1) is None);
    assert(find_char_from(k, '{', 0) is None);
    assert(find_char_from(v, '{', 33) is None);
    assert(find_char_from(v, '{', 17) is None);
    assert(find_char_from(v, '{', 1) is None);
    assert(find_char_from(v, '{', 0) is None);
    reveal_with_fuel(placeholders_from, 2);
}

proof fn entry_57()
    ensures
        keeps_placeholders(ZH_TRANSLATIONS@[57]),
{
    reveal_strlit("Examples:");
    reveal_strlit("示例：");
    assert(ZH_TRANSLATIONS@[57] == ("Examples:", "示例："));
    let k = "Examples:"@;
    let v = "示例："@;
    reveal_with_fuel(find_char_from, 18);
    assert(find_char_from(k, '{', 9) is None);
    assert(find_char_from(k, '{', 0) is None);
    assert(find_char_from(v, '{', 3) is None);
    assert(find_char_from(v, '{', 0) is None);
    reveal_with_fuel(placeholders_from, 2);
}

proof fn entry_58()
    ensures
        keeps_placeholders(ZH_TRANSLATIONS@[58]),
{
    reveal_strlit(" (if your terminal background is dark)");
    reveal_strlit("（如果你的终端背景为深色）");
    assert(ZH_TRANSLATIONS@[58] == (" (if your terminal background is dark)", "（如果你的终端背景为深色）"));
    let k = " (if your terminal background is dark)"@;
    let v = "（如果你的终端背景为深色）"@;
    reveal_with_fuel(find_char_from, 18);
    assert(find_char_from(k, '{', 38) is None);
    assert(find_char_from(k, '{', 22) is None);
    assert(find_char_from(k, '{', 6) is None);
    assert(find_char_from(k, '{', 0) is None);
    assert(find_char_from(v, '{', 13) is None);
    assert(find_char_from(v, '{', 0) is None);
    reveal_with_fuel(placeholders_from, 2);
}

proof fn entry_59()
    ensures
        keeps_placeholders(ZH_TRANSLATIONS@[59]),
{
    reveal_strlit(" (if your terminal background is light)");
    reveal_strlit("（如果你的终端背景为浅色）");
    assert(ZH_TRANSLATIONS@[59] == (" (if your terminal background is light)", "（如果你的终端背景为浅色）"));
    let k = " (if your terminal background is light)"@;
    let v = "（如果你的终端背景为浅色）"@;
    reveal_with_fuel(find_char_from, 18);
    assert(find_char_from(k, '{', 39) is None);
    assert(find_char_from(k, '{', 23) is None);
    assert(find_char_from(k, '{', 7) is None);
    assert(find_char_from(k, '{', 0) is None);
    assert(find_char_from(v, '{', 13) is None);
    assert(find_char_from(v, '{', 0) is None);
    reveal_with_fuel(placeholders_from, 2);
}

proof fn entry_60()
    ensures
        keeps_placeholders(ZH_TRANSLATIONS@[60]),
{
    reveal_strlit("Run ");
    reveal_strlit("运行 ");
    assert(ZH_TRANSLATIONS@[60] == ("Run ", "运行 "));
    let k = "Run "@;
    let v = "运行 "@;
    reveal_with_fuel(find_char_from, 18);
    assert(find_char_from(k, '{', 4) is None);
    assert(find_char_from(k, '{', 0) is None);
    assert(find_char_from(v, '{', 3) is None);
    assert(find_char_from(v, '{', 0) is None);
    reveal_with_fuel(placeholders_from, 2);
}

proof fn entry_61()
    ensures
        keeps_placeholders(ZH_TRANSLATIONS@[61]),
{
    reveal_strlit(" to see all options.");
    reveal_strlit(" 查看所有选项。");
    assert(ZH_TRANSLATIONS@[61] == (" to see all options.", " 查看所有选项。"));
    let k = " to see all options."@;
    let v = " 查看所有选项。"@;
    reveal_with_fuel(find_char_from, 18);
    assert(find_char_from(k, '{', 20) is None);
    assert(find_char_from(k, '{', 4) is None);
    assert(find_char_from(k, '{', 0) is None);
    assert(find_char_from(v, '{', 8) is None);
    assert(find_char_from(v, '{', 0) is None);
    reveal_with_fuel(placeholders_from, 2);
}

proof fn entry_62()
    ensures
        keeps_placeholders(ZH_TRANSLATIONS@[62]),
{
    reveal_strlit("Cursor Style & Effects");
    reveal_strlit("光标样式与效果");
    assert(ZH_TRANSLATIONS@[62] == ("Cursor Style & Effects", "光标样式与效果"));
    let k = "Cursor Style & Effects"@;
    let v = "光标样式与效果"@;
    reveal_with_fuel(find_char_from, 18);
    assert(find_char_from(k, '{', 22) is None);
    assert(find_char_from(k, '{', 6) is None);
    assert(find_char_from(k, '{', 0) is None);
    assert(find_char_from(v, '{', 7) is None);
    assert(find_char_from(v, '{', 0) is None);
    reveal_with_fuel(placeholders_from, 2);
}

proof fn entry_63()
    ensures
        keeps_placeholders(ZH_TRANSLATIONS@[63]),
{
    reveal_strlit("⚠ Warning: You are running Kitty. The custom `flyline` cursor backend hides the terminal's native cursor, which stops Kitty from detecting prompt states and prompts you on exit. It is highly recommended to use the `terminal` backend instead.");
    reveal_strlit("⚠ 警告：你正在运行 Kitty。自定义的 `flyline` 光标后端会隐藏终端原生光标，导致 Kitty 无法检测提示符状态并在退出时提示。强烈建议改用 `terminal` 后端。");
    assert(ZH_TRANSLATIONS@[63] == ("⚠ Warning: You are running Kitty. The custom `flyline` cursor backend hides the terminal's native cursor, which stops Kitty from detecting prompt states and prompts you on exit. It is highly recommended to use the `terminal` backend instead.", "⚠ 警告：你正在运行 Kitty。自定义的 `flyline` 光标后端会隐藏终端原生光标，导致 Kitty 无法检测提示符状态并在退出时提示。强烈建议改用 `terminal` 后端。"));
    let k = "⚠ Warning: You are running Kitty. The custom `flyline` cursor backend hides the terminal's native cursor, which stops Kitty from detecting prompt states and prompts you on exit. It is highly recommended to use the `terminal` backend instead."@;
    let v = "⚠ 警告：你正在运行 Kitty。自定义的 `flyline` 光标后端会隐藏终端原生光标，导致 Kitty 无法检测提示符状态并在退出时提示。强烈建议改用 `terminal` 后端。"@;
    reveal_with_fuel(find_char_from, 18);
    assert(find_char_from(k, '{', 241) is None);
    assert(find_char_from(k, '{', 225) is None);
    assert(find_char_from(k, '{', 209) is None);
    assert(find_char_from(k, '{', 193) is None);
    assert(find_char_from(k, '{', 177) is None);
    assert(find_char_from(k, '{', 161) is None);
    assert(find_char_from(k, '{', 145) is None);
    assert(find_char_from(k, '{', 129) is None);
    assert(find_char_from(k, '{', 113) is None);
    assert(find_char_from(k, '{', 97) is None);
    assert(find_char_from(k, '{', 81) is None);
    assert(find_char_from(k, '{', 65) is None);
    assert(find_char_from(k, '{', 49) is None);
    assert(find_char_from(k, '{', 33) is None);
    assert(find_char_from(k, '{', 17) is None);
    assert(find_char_from(k, '{', 1) is None);
    assert(find_char_from(k, '{', 0) is None);
    assert(find_char_from(v, '{', 93) is None);
    assert(find_char_from(v, '{', 77) is None);
    assert(find_char_from(v, '{', 61) is None);
    assert(find_char_from(v, '{', 45) is None);
    assert(find_char_from(v, '{', 29) is None);
    assert(find_char_from(v, '{', 13) is None);
    assert(find_char_from(v, '{', 0) is None);
    reveal_with_fuel(placeholders_from, 2);
}

proof fn entry_64()
    ensures
        keeps_placeholders(ZH_TRANSLATIONS@[64]),
{
    reveal_strlit("Use ");
    reveal_strlit("使用 ");
    assert(ZH_TRANSLATIONS@[64] == ("Use ", "使用 "));
    let k = "Use "@;
    let v = "使用 "@;
    reveal_with_fuel(find_char_from, 18);
    assert(find_char_from(k, '{', 4) is None);
    assert(find_char_from(k, '{', 0) is None);
    assert(find_char_from(v, '{', 3) is None);
    assert(find_char_from(v, '{', 0) is None);
    reveal_with_fuel(placeholders_from, 2);
}

proof fn entry_65()
    ensures
        keeps_placeholders(ZH_TRANSLATIONS@[65]),
{
    reveal_strlit(" to control how the cursor looks and animates.");
    reveal_strlit(" 控制光标的外观和动画。");
    assert(ZH_TRANSLATIONS@[65] == (" to control how the cursor looks and animates.", " 控制光标的外观和动画。"));
    let k = " to control how the cursor looks and animates."@;
    let v = " 控制光标的外观和动画。"@;
    reveal_with_fuel(find_char_from, 18);
    assert(find_char_from(k, '{', 46) is None);
    assert(find_char_from(k, '{', 30) is None);
    assert(find_char_from(k, '{', 14) is None);
    assert(find_char_from(k, '{', 0) is None);
    assert(find_char_from(v, '{', 12) is None);
    assert(find_char_from(v, '{', 0) is None);
    reveal_with_fuel(placeholders_from, 2);
}

proof fn entry_66()
    ensures
        keeps_placeholders(ZH_TRANSLATIONS@[66]),
{
    reveal_strlit("Style and effect options require the `flyline` cursor backend. The `terminal` backend leaves cursor rendering to your terminal emulator.");
    reveal_strlit("样式和效果选项需要 `flyline` 光标后端。`terminal` 后端将光标渲染交给终端模拟器。");
    assert(ZH_TRANSLATIONS@[66] == ("Style and effect options require the `flyline` cursor backend. The `terminal` backend leaves cursor rendering to your terminal emulator.", "样式和效果选项需要 `flyline` 光标后端。`terminal` 后端将光标渲染交给终端模拟器。"));
    let k = "Style and effect options require the `flyline` cursor backend. The `terminal` backend leaves cursor rendering to your terminal emulator."@;
    let v = "样式和效果选项需要 `flyline` 光标后端。`terminal` 后端将光标渲染交给终端模拟器。"@;
    reveal_with_fuel(find_char_from, 18);
    assert(find_char_from(k, '{', 136) is None);
    assert(find_char_from(k, '{', 120) is None);
    assert(find_char_from(k, '{', 104) is None);
    assert(find_char_from(k, '{', 88) is None);
    assert(find_char_from(k, '{', 72) is None);
    assert(find_char_from(k, '{', 56) is None);
    assert(find_char_from(k, '{', 40) is None);
    assert(find_char_from(k, '{', 24) is None);
    assert(find_char_from(k, '{', 8) is None);
    assert(find_char_from(k, '{', 0) is None);
    assert(find_char_from(v, '{', 51) is None);
    assert(find_char_from(v, '{', 35) is None);
    assert(find_char_from(v, '{', 19) is None);
    assert(find_char_from(v, '{', 3) is None);
    assert(find_char_from(v, '{', 0) is None);
    reveal_with_fuel(placeholders_from, 2);
}

proof fn entry_67()
    ensures
        keeps_placeholders(ZH_TRANSLATIONS@[67]),
{
    reveal_strlit(" (your terminal emulator will render the cursor)");
    reveal_strlit("（由终端模拟器渲染光标）");
    assert(ZH_TRANSLATIONS@[67] == (" (your terminal emulator will render the cursor)", "（由终端模拟器渲染光标）"));
    let k = " (your terminal emulator will render the cursor)"@;
    let v = "（由终端模拟器渲染光标）"@;
    reveal_with_fuel(find_char_from, 18);
    assert(find_char_from(k, '{', 48) is None);
    assert(find_char_from(k, '{', 32) is None);
    assert(find_char_from(k, '{', 16) is None);
    assert(find_char_from(k, '{', 0) is None);
    assert(find_char_from(v, '{', 12) is None);
    assert(find_char_from(v, '{', 0) is None);
    reveal_with_fuel(placeholders_from, 2);
}

proof fn entry_68()
    ensures
        keeps_placeholders(ZH_TRANSLATIONS@[68]),
{
    reveal_strlit(" (invert the character under the cursor)");
    reveal_strlit("（反转光标下的字符）");
    assert(ZH_TRANSLATIONS@[68] == (" (invert the character under the cursor)", "（反转光标下的字符）"));
    let k = " (invert the character under the cursor)"@;
    let v = "（反转光标下的字符）"@;
    reveal_with_fuel(find_char_from, 18);
    assert(find_char_from(k, '{', 40) is None);
    assert(find_char_from(k, '{', 24) is None);
    assert(find_char_from(k, '{', 8) is None);
    assert(find_char_from(k, '{', 0) is None);
    assert(find_char_from(v, '{', 10) is None);
    assert(find_char_from(v, '{', 0) is None);
    reveal_with_fuel(placeholders_from, 2);
}

proof fn entry_69()
    ensures
        keeps_placeholders(ZH_TRANSLATIONS@[69]),
{
    reveal_strlit(" (custom foreground, background, and style)");
    reveal_strlit("（自定义前景色、背景色和样式）");
    assert(ZH_TRANSLATIONS@[69] == (" (custom foreground, background, and style)", "（自定义前景色、背景色和样式）"));
    let k = " (custom foreground, background, and style)"@;
    let v = "（自定义前景色、背景色和样式）"@;
    reveal_with_fuel(find_char_from, 18);
    assert(find_char_from(k, '{', 43) is None);
    assert(find_char_from(k, '{', 27) is None);
    assert(find_char_from(k, '{', 11) is None);
    assert(find_char_from(k, '{', 0) is None);
    assert(find_char_from(v, '{', 15) is None);
    assert(find_char_from(v, '{', 0) is None);
    reveal_with_fuel(placeholders_from, 2);
}

proof fn entry_70()
    ensures
        keeps_placeholders(ZH_TRANSLATIONS@[70]),
{
    reveal_strlit(" (faster blinking cursor)");
    reveal_strlit("（更快闪烁的光标）");
    assert(ZH_TRANSLATIONS@[70] == (" (faster blinking cursor)", "（更快闪烁的光标）"));
    let k = " (faster blinking cursor)"@;
    let v = "（更快闪烁的光标）"@;
    reveal_with_fuel(find_char_from, 18);
    assert(find_char_from(k, '{', 25) is None);
    assert(find_char_from(k, '{', 9) is None);
    assert(find_char_from(k, '{', 0) is None);
    assert(find_char_from(v, '{', 9) is None);
    assert(find_char_from(v, '{', 0) is None);
    reveal_with_fuel(placeholders_from, 2);
}

proof fn entry_71()
    ensures
        keeps_placeholders(ZH_TRANSLATIONS@[71]),
{
    reveal_strlit(" (RGB fade effect with smooth easing and bouncing interpolation when the cursor moves)");
    reveal_strlit("（光标移动时带有平滑缓动和弹跳插值的 RGB 渐隐效果）");
    assert(ZH_TRANSLATIONS@[71] == (" (RGB fade effect with smooth easing and bouncing interpolation when the cursor moves)", "（光标移动时带有平滑缓动和弹跳插值的 RGB 渐隐效果）"));
    let k = " (RGB fade effect with smooth easing and bouncing interpolation when the cursor moves)"@;
    let v = "（光标移动时带有平滑缓动和弹跳插值的 RGB 渐隐效果）"@;
    reveal_with_fuel(find_char_from, 18);
    assert(find_char_from(k, '{', 86) is None);
    assert(find_char_from(k, '{', 70) is None);
    assert(find_char_from(k, '{', 54) is None);
    assert(find_char_from(k, '{', 38) is None);
    assert(find_char_from(k, '{', 22) is None);
    assert(find_char_from(k, '{', 6) is None);
    assert(find_char_from(k, '{', 0) is None);
    assert(find_char_from(v, '{', 28) is None);
    assert(find_char_from(v, '{', 12) is None);
    assert(find_char_from(v, '{', 0) is None);
    reveal_with_fuel(placeholders_from, 2);
}

proof fn entry_72()
    ensures
        keeps_placeholders(ZH_TRANSLATIONS@[72]),
{
    reveal_strlit("Try tab completing ");
    reveal_strlit("试试对 ");
    assert(ZH_TRANSLATIONS@[72] == ("Try tab completing ", "试试对 "));
    let k = "Try tab completing "@;
    let v = "试试对 "@;
    reveal_with_fuel(find_char_from, 18);
    assert(find_char_from(k, '{', 19) is None);
    assert(find_char_from(k, '{', 3) is None);
    assert(find_char_from(k, '{', 0) is None);
    assert(find_char_from(v, '{', 4) is None);
    assert(find_char_from(v, '{', 0) is None);
    reveal_with_fuel(placeholders_from, 2);
}

proof fn entry_73()
    ensures
        keeps_placeholders(ZH_TRANSLATIONS@[73]),
{
    reveal_strlit(" for an example of flyline's dynamic tab completion descriptions!");
    reveal_strlit(" 进行 Tab 补全，体验 flyline 的动态补全描述！");
    assert(ZH_TRANSLATIONS@[73] == (" for an example of flyline's dynamic tab completion descriptions!", " 进行 Tab 补全，体验 flyline 的动态补全描述！"));
    let k = " for an example of flyline's dynamic tab completion descriptions!"@;
    let v = " 进行 Tab 补全，体验 flyline 的动态补全描述！"@;
    reveal_with_fuel(find_char_from, 18);
    assert(find_char_from(k, '{', 65) is None);
    assert(find_char_from(k, '{', 49) is None);
    assert(find_char_from(k, '{', 33) is None);
    assert(find_char_from(k, '{', 17) is None);
    assert(find_char_from(k, '{', 1) is None);
    assert(find_char_from(k, '{', 0) is None);
    assert(find_char_from(v, '{', 30) is None);
    assert(find_char_from(v, '{', 14) is None);
    assert(find_char_from(v, '{', 0) is None);
    reveal_with_fuel(placeholders_from, 2);
}

proof fn entry_74()
    ensures
        keeps_placeholders(ZH_TRANSLATIONS@[74]),
{
    reveal_strlit("Auto-Closing Quotes & Brackets");
    reveal_strlit("引号与括号自动闭合");
    assert(ZH_TRANSLATIONS@[74] == ("Auto-Closing Quotes & Brackets", "引号与括号自动闭合"));
    let k = "Auto-Closing Quotes & Brackets"@;
    let v = "引号与括号自动闭合"@;
    reveal_with_fuel(find_char_from, 18);
    assert(find_char_from(k, '{', 30) is None);
    assert(find_char_from(k, '{', 14) is None);
    assert(find_char_from(k, '{', 0) is None);
    assert(find_char_from(v, '{', 9) is None);
    assert(find_char_from(v, '{', 0) is None);
    reveal_with_fuel(placeholders_from, 2);
}

proof fn entry_75()
    ensures
        keeps_placeholders(ZH_TRANSLATIONS@[75]),
{
    reveal_strlit("Flyline automatically inserts closing characters when you type an opening one.");
    reveal_strlit("当你输入左括号或引号时，Flyline 会自动插入对应的闭合字符。");
    assert(ZH_TRANSLATIONS@[75] == ("Flyline automatically inserts closing characters when you type an opening one.", "当你输入左括号或引号时，Flyline 会自动插入对应的闭合字符。"));
    let k = "Flyline automatically inserts closing characters when you type an opening one."@;
    let v = "当你输入左括号或引号时，Flyline 会自动插入对应的闭合字符。"@;
    reveal_with_fuel(find_char_from, 18);
    assert(find_char_from(k, '{', 78) is None);
    assert(find_char_from(k, '{', 62) is None);
    assert(find_char_from(k, '{', 46) is None);
    assert(find_char_from(k, '{', 30) is None);
    assert(find_char_from(k, '{', 14) is None);
    assert(find_char_from(k, '{', 0) is None);
    assert(find_char_from(v, '{', 33) is None);
    assert(find_char_from(v, '{', 17) is None);
    assert(find_char_from(v, '{', 1) is None);
    assert(find_char_from(v, '{', 0) is None);
    reveal_with_fuel(placeholders_from, 2);
}

proof fn entry_76()
    ensures
        keeps_placeholders(ZH_TRANSLATIONS@[76]),
{
    reveal_strlit("Try typing `echo \"$(` and watch Flyline insert the closing `)\"` for you.");
    reveal_strlit("试试输入 `echo \"$(`，观察 Flyline 自动补上闭合的 `)\"`。");
    assert(ZH_TRANSLATIONS@[76] == ("Try typing `echo \"$(` and watch Flyline insert the closing `)\"` for you.", "试试输入 `echo \"$(`，观察 Flyline 自动补上闭合的 `)\"`。"));
    let k = "Try typing `echo \"$(` and watch Flyline insert the closing `)\"` for you."@;
    let v = "试试输入 `echo \"$(`，观察 Flyline 自动补上闭合的 `)\"`。"@;
    reveal_with_fuel(find_char_from, 18);
    assert(find_char_from(k, '{', 72) is None);
    assert(find_char_from(k, '{', 56) is None);
    assert(find_char_from(k, '{', 40) is None);
    assert(find_char_from(k, '{', 24) is None);
    assert(find_char_from(k, '{', 8) is None);
    assert(find_char_from(k, '{', 0) is None);
    assert(find_char_from(v, '{', 40) is None);
    assert(find_char_from(v, '{', 24) is None);
    assert(find_char_from(v, '{', 8) is None);
    assert(find_char_from(v, '{', 0) is None);
    reveal_with_fuel(placeholders_from, 2);
}

proof fn entry_77()
    ensures
        keeps_placeholders(ZH_TRANSLATIONS@[77]),
{
    reveal_strlit("This works for parentheses (), square brackets [], curly braces {}, and quotes \" \".");
    reveal_strlit("适用于圆括号 ()、方括号 []、花括号 {} 和引号 \" \"。");
    assert(ZH_TRANSLATIONS@[77] == ("This works for parentheses (), square brackets [], curly braces {}, and quotes \" \".", "适用于圆括号 ()、方括号 []、花括号 {} 和引号 \" \"。"));
    let k = "This works for parentheses (), square brackets [], curly braces {}, and quotes \" \"."@;
    let v = "适用于圆括号 ()、方括号 []、花括号 {} 和引号 \" \"。"@;
    reveal_with_fuel(find_char_from, 18);
    assert(find_char_from(k, '{', 64) == Some(64int));
    assert(find_char_from(k, '{', 48) == Some(64int));
    assert(find_char_from(k, '{', 32) == Some(64int));
    assert(find_char_from(k, '{', 16) == Some(64int));
    assert(find_char_from(k, '{', 0) == Some(64int));
    assert(find_char_from(k, '}', 65) == Some(65int));
    assert(find_char_from(k, '}', 64) == Some(65int));
    assert(find_char_from(k, '{', 83) is None);
    assert(find_char_from(k, '{', 67) is None);
    assert(find_char_from(k, '{', 66) is None);
    assert(find_char_from(v, '{', 21) == Some(21int));
    assert(find_char_from(v, '{', 5) == Some(21int));
    assert(find_char_from(v, '{', 0) == Some(21int));
    assert(find_char_from(v, '}', 22) == Some(22int));
    assert(find_char_from(v, '}', 21) == Some(22int));
    assert(find_char_from(v, '{', 32) is None);
    assert(find_char_from(v, '{', 23) is None);
    assert(k.subrange(64, 66) =~= v.subrange(21, 23));
    reveal_with_fuel(placeholders_from, 3);
}

proof fn entry_78()
    ensures
        keeps_placeholders(ZH_TRANSLATIONS@[78]),
{
    reveal_strlit("Toggle this feature with ");
    reveal_strlit("使用 ");
    assert(ZH_TRANSLATIONS@[78] == ("Toggle this feature with ", "使用 "));
    let k = "Toggle this feature with "@;
    let v = "使用 "@;
    reveal_with_fuel(find_char_from, 18);
    assert(find_char_from(k, '{', 25) is None);
    assert(find_char_from(k, '{', 9) is None);
    assert(find_char_from(k, '{', 0) is None);
    assert(find_char_from(v, '{', 3) is None);
    assert(find_char_from(v, '{', 0) is None);
    reveal_with_fuel(placeholders_from, 2);
}

proof fn entry_79()
    ensures
        keeps_placeholders(ZH_TRANSLATIONS@[79]),
{
    reveal_strlit("Fine-Grained Deletion");
    reveal_strlit("精细删除");
    assert(ZH_TRANSLATIONS@[79] == ("Fine-Grained Deletion", "精细删除"));
    let k = "Fine-Grained Deletion"@;
    let v = "精细删除"@;
    reveal_with_fuel(find_char_from, 18);
    assert(find_char_from(k, '{', 21) is None);
    assert(find_char_from(k, '{', 5) is None);
    assert(find_char_from(k, '{', 0) is None);
    assert(find_char_from(v, '{', 4) is None);
    assert(find_char_from(v, '{', 0) is None);
    reveal_with_fuel(placeholders_from, 2);
}

proof fn entry_80()
    ensures
        keeps_placeholders(ZH_TRANSLATIONS@[80]),
{
    reveal_strlit(" deletes one whitespace-delimited word to the left.");
    reveal_strlit(" 删除左侧一个以空白分隔的单词。");
    assert(ZH_TRANSLATIONS@[80] == (" deletes one whitespace-delimited word to the left.", " 删除左侧一个以空白分隔的单词。"));
    let k = " deletes one whitespace-delimited word to the left."@;
    let v = " 删除左侧一个以空白分隔的单词。"@;
    reveal_with_fuel(find_char_from, 18);
    assert(find_char_from(k, '{', 51) is None);
    assert(find_char_from(k, '{', 35) is None);
    assert(find_char_from(k, '{', 19) is None);
    assert(find_char_from(k, '{', 3) is None);
    assert(find_char_from(k, '{', 0) is None);
    assert(find_char_from(v, '{', 16) is None);
    assert(find_char_from(v, '{', 0) is None);
    reveal_with_fuel(placeholders_from, 2);
}

proof fn entry_81()
    ensures
        keeps_placeholders(ZH_TRANSLATIONS@[81]),
{
    reveal_strlit(" deletes one chunk to the left using finer punctuation or path-segment boundaries.");
    reveal_strlit(" 按更细的标点或路径段边界删除左侧一个片段。");
    assert(ZH_TRANSLATIONS@[81] == (" deletes one chunk to the left using finer punctuation or path-segment boundaries.", " 按更细的标点或路径段边界删除左侧一个片段。"));
    let k = " deletes one chunk to the left using finer punctuation or path-segment boundaries."@;
    let v = " 按更细的标点或路径段边界删除左侧一个片段。"@;
    reveal_with_fuel(find_char_from, 18);
    assert(find_char_from(k, '{', 82) is None);
    assert(find_char_from(k, '{', 66) is None);
    assert(find_char_from(k, '{', 50) is None);
    assert(find_char_from(k, '{', 34) is None);
    assert(find_char_from(k, '{', 18) is None);
    assert(find_char_from(k, '{', 2) is None);
    assert(find_char_from(k, '{', 0) is None);
    assert(find_char_from(v, '{', 22) is None);
    assert(find_char_from(v, '{', 6) is None);
    assert(find_char_from(v, '{', 0) is None);
    reveal_with_fuel(placeholders_from, 2);
}

proof fn entry_82()
    ensures
        keeps_placeholders(ZH_TRANSLATIONS@[82]),
{
    reveal_strlit(" and ");
    reveal_strlit(" 和 ");
    assert(ZH_TRANSLATIONS@[82] == (" and ", " 和 "));
    let k = " and "@;
    let v = " 和 "@;
    reveal_with_fuel(find_char_from, 18);
    assert(find_char_from(k, '{', 5) is None);
    assert(find_char_from(k, '{', 0) is None);
    assert(find_char_from(v, '{', 3) is None);
    assert(find_char_from(v, '{', 0) is None);
    reveal_with_fuel(placeholders_from, 2);
}

proof fn entry_83()
    ensures
        keeps_placeholders(ZH_TRANSLATIONS@[83]),
{
    reveal_strlit(" work similarly.");
    reveal_strlit(" 操作类似。");
    assert(ZH_TRANSLATIONS@[83] == (" work similarly.", " 操作类似。"));
    let k = " work similarly."@;
    let v = " 操作类似。"@;
    reveal_with_fuel(find_char_from, 18);
    assert(find_char_from(k, '{', 16) is None);
    assert(find_char_from(k, '{', 0) is None);
    assert(find_char_from(v, '{', 6) is None);
    assert(find_char_from(v, '{', 0) is None);
    reveal_with_fuel(placeholders_from, 2);
}

proof fn entry_84()
    ensures
        keeps_placeholders(ZH_TRANSLATIONS@[84]),
{
    reveal_strlit("Try it out on this example command:");
    reveal_strlit("在以下示例命令上试试：");
    assert(ZH_TRANSLATIONS@[84] == ("Try it out on this example command:", "在以下示例命令上试试："));
    let k = "Try it out on this example command:"@;
    let v = "在以下示例命令上试试："@;
    reveal_with_fuel(find_char_from, 18);
    assert(find_char_from(k, '{', 35) is None);
    assert(find_char_from(k, '{', 19) is None);
    assert(find_char_from(k, '{', 3) is None);
    assert(find_char_from(k, '{', 0) is None);
    assert(find_char_from(v, '{', 11) is None);
    assert(find_char_from(v, '{', 0) is None);
    reveal_with_fuel(placeholders_from, 2);
}

proof fn entry_85()
    ensures
        keeps_placeholders(ZH_TRANSLATIONS@[85]),
{
    reveal_strlit("Agent Mode");
    reveal_strlit("AI 助手模式");
    assert(ZH_TRANSLATIONS@[85] == ("Agent Mode", "AI 助手模式"));
    let k = "Agent Mode"@;
    let v = "AI 助手模式"@;
    reveal_with_fuel(find_char_from, 18);
    assert(find_char_from(k, '{', 10) is None);
    assert(find_char_from(k, '{', 0) is None);
    assert(find_char_from(v, '{', 7) is None);
    assert(find_char_from(v, '{', 0) is None);
    reveal_with_fuel(placeholders_from, 2);
}

proof fn entry_86()
    ensures
        keeps_placeholders(ZH_TRANSLATIONS@[86]),
{
    reveal_strlit("Flyline can interface with your AI agent to help you write commands.");
    reveal_strlit("Flyline 可以与你的 AI 助手协作，帮助你编写命令。");
    assert(ZH_TRANSLATIONS@[86] == ("Flyline can interface with your AI agent to help you write commands.", "Flyline 可以与你的 AI 助手协作，帮助你编写命令。"));
    let k = "Flyline can interface with your AI agent to help you write commands."@;
    let v = "Flyline 可以与你的 AI 助手协作，帮助你编写命令。"@;
    reveal_with_fuel(find_char_from, 18);
    assert(find_char_from(k, '{', 68) is None);
    assert(find_char_from(k, '{', 52) is None);
    assert(find_char_from(k, '{', 36) is None);
    assert(find_char_from(k, '{', 20) is None);
    assert(find_char_from(k, '{', 4) is None);
    assert(find_char_from(k, '{', 0) is None);
    assert(find_char_from(v, '{', 30) is None);
    assert(find_char_from(v, '{', 14) is None);
    assert(find_char_from(v, '{', 0) is None);
    reveal_with_fuel(placeholders_from, 2);
}

proof fn entry_87()
    ensures
        keeps_placeholders(ZH_TRANSLATIONS@[87]),
{
    reveal_strlit("Try activating agent mode and get help setting it up:");
    reveal_strlit("试试激活 AI 助手模式，获取设置帮助：");
    assert(ZH_TRANSLATIONS@[87] == ("Try activating agent mode and get help setting it up:", "试试激活 AI 助手模式，获取设置帮助："));
    let k = "Try activating agent mode and get help setting it up:"@;
    let v = "试试激活 AI 助手模式，获取设置帮助："@;
    reveal_with_fuel(find_char_from, 18);
    assert(find_char_from(k, '{', 53) is None);
    assert(find_char_from(k, '{', 37) is None);
    assert(find_char_from(k, '{', 21) is None);
    assert(find_char_from(k, '{', 5) is None);
    assert(find_char_from(k, '{', 0) is None);
    assert(find_char_from(v, '{', 20) is None);
    assert(find_char_from(v, '{', 4) is None);
    assert(find_char_from(v, '{', 0) is None);
    reveal_with_fuel(placeholders_from, 2);
}

proof fn entry_88()
    ensures
        keeps_placeholders(ZH_TRANSLATIONS@[88]),
{
    reveal_strlit("` and press ");
    reveal_strlit("` 并按 ");
    assert(ZH_TRANSLATIONS@[88] == ("` and press ", "` 并按 "));
    let k = "` and press "@;
    let v = "` 并按 "@;
    reveal_with_fuel(find_char_from, 18);
    assert(find_char_from(k, '{', 12) is None);
    assert(find_char_from(k, '{', 0) is None);
    assert(find_char_from(v, '{', 5) is None);
    assert(find_char_from(v, '{', 0) is None);
    reveal_with_fuel(placeholders_from, 2);
}

proof fn entry_89()
    ensures
        keeps_placeholders(ZH_TRANSLATIONS@[89]),
{
    reveal_strlit("When setting it up, you can specify a `--trigger-prefix`. If the buffer starts with this prefix, flyline will activate agent mode when you press ");
    reveal_strlit("设置时，可以指定 `--trigger-prefix`。如果缓冲区以此前缀开头，按下 ");
    assert(ZH_TRANSLATIONS@[89] == ("When setting it up, you can specify a `--trigger-prefix`. If the buffer starts with this prefix, flyline will activate agent mode when you press ", "设置时，可以指定 `--trigger-prefix`。如果缓冲区以此前缀开头，按下 "));
    let k = "When setting it up, you can specify a `--trigger-prefix`. If the buffer starts with this prefix, flyline will activate agent mode when you press "@;
    let v = "设置时，可以指定 `--trigger-prefix`。如果缓冲区以此前缀开头，按下 "@;
    reveal_with_fuel(find_char_from, 18);
    assert(find_char_from(k, '{', 145) is None);
    assert(find_char_from(k, '{', 129) is None);
    assert(find_char_from(k, '{', 113) is None);
    assert(find_char_from(k, '{', 97) is None);
    assert(find_char_from(k, '{', 81) is None);
    assert(find_char_from(k, '{', 65) is None);
    assert(find_char_from(k, '{', 49) is None);
    assert(find_char_from(k, '{', 33) is None);
    assert(find_char_from(k, '{', 17) is None);
    assert(find_char_from(k, '{', 1) is None);
    assert(find_char_from(k, '{', 0) is None);
    assert(find_char_from(v, '{', 43) is None);
    assert(find_char_from(v, '{', 27) is None);
    assert(find_char_from(v, '{', 11) is None);
    assert(find_char_from(v, '{', 0) is None);
    reveal_with_fuel(placeholders_from, 2);
}

proof fn entry_90()
    ensures
        keeps_placeholders(ZH_TRANSLATIONS@[90]),
{
    reveal_strlit("You've reached the end of the tutorial!");
    reveal_strlit("教程已结束！");
    assert(ZH_TRANSLATIONS@[90] == ("You've reached the end of the tutorial!", "教程已结束！"));
    let k = "You've reached the end of the tutorial!"@;
    let v = "教程已结束！"@;
    reveal_with_fuel(find_char_from, 18);
    assert(find_char_from(k, '{', 39) is None);
    assert(find_char_from(k, '{', 23) is None);
    assert(find_char_from(k, '{', 7) is None);
    assert(find_char_from(k, '{', 0) is None);
    assert(find_char_from(v, '{', 6) is None);
    assert(find_char_from(v, '{', 0) is None);
    reveal_with_fuel(placeholders_from, 2);
}

proof fn entry_91()
    ensures
        keeps_placeholders(ZH_TRANSLATIONS@[91]),
{
    reveal_strlit("Feel free to explore and experiment with flyline's features.");
    reveal_strlit("欢迎继续探索和体验 flyline 的功能。");
    assert(ZH_TRANSLATIONS@[91] == ("Feel free to explore and experiment with flyline's features.", "欢迎继续探索和体验 flyline 的功能。"));
    let k = "Feel free to explore and experiment with flyline's features."@;
    let v = "欢迎继续探索和体验 flyline 的功能。"@;
    reveal_with_fuel(find_char_from, 18);
    assert(find_char_from(k, '{', 60) is None);
    assert(find_char_from(k, '{', 44) is None);
    assert(find_char_from(k, '{', 28) is None);
    assert(find_char_from(k, '{', 12) is None);
    assert(find_char_from(k, '{', 0) is None);
    assert(find_char_from(v, '{', 22) is None);
    assert(find_char_from(v, '{', 6) is None);
    assert(find_char_from(v, '{', 0) is None);
    reveal_with_fuel(placeholders_from, 2);
}

proof fn entry_92()
    ensures
        keeps_placeholders(ZH_TRANSLATIONS@[92]),
{
    reveal_strlit("For more information, check out ");
    reveal_strlit("更多信息，请查看 ");
    assert(ZH_TRANSLATIONS@[92] == ("For more information, check out ", "更多信息，请查看 "));
    let k = "For more information, check out "@;
    let v = "更多信息，请查看 "@;
    reveal_with_fuel(find_char_from, 18);
    assert(find_char_from(k, '{', 32) is None);
    assert(find_char_from(k, '{', 16) is None);
    assert(find_char_from(k, '{', 0) is None);
    assert(find_char_from(v, '{', 9) is None);
    assert(find_char_from(v, '{', 0) is None);
    reveal_with_fuel(placeholders_from, 2);
}

proof fn entry_93()
    ensures
        keeps_placeholders(ZH_TRANSLATIONS@[93]),
{
    reveal_strlit(" and https://github.com/HalFrgrd/flyline.");
    reveal_strlit(" 以及 https://github.com/HalFrgrd/flyline。");
    assert(ZH_TRANSLATIONS@[93] == (" and https://github.com/HalFrgrd/flyline.", " 以及 https://github.com/HalFrgrd/flyline。"));
    let k = " and https://github.com/HalFrgrd/flyline."@;
    let v = " 以及 https://github.com/HalFrgrd/flyline。"@;
    reveal_with_fuel(find_char_from, 18);
    assert(find_char_from(k, '{', 41) is None);
    assert(find_char_from(k, '{', 25) is None);
    assert(find_char_from(k, '{', 9) is None);
    assert(find_char_from(k, '{', 0) is None);
    assert(find_char_from(v, '{', 40) is None);
    assert(find_char_from(v, '{', 24) is None);
    assert(find_char_from(v, '{', 8) is None);
    assert(find_char_from(v, '{', 0) is None);
    reveal_with_fuel(placeholders_from, 2);
}

proof fn entry_94()
    ensures
        keeps_placeholders(ZH_TRANSLATIONS@[94]),
{
    reveal_strlit("Press Escape to re-enable mouse mode.");
    reveal_strlit("按 Escape 重新启用鼠标模式。");
    assert(ZH_TRANSLATIONS@[94] == ("Press Escape to re-enable mouse mode.", "按 Escape 重新启用鼠标模式。"));
    let k = "Press Escape to re-enable mouse mode."@;
    let v = "按 Escape 重新启用鼠标模式。"@;
    reveal_with_fuel(find_char_from, 18);
    assert(find_char_from(k, '{', 37) is None);
    assert(find_char_from(k, '{', 21) is None);
    assert(find_char_from(k, '{', 5) is None);
    assert(find_char_from(k, '{', 0) is None);
    assert(find_char_from(v, '{', 18) is None);
    assert(find_char_from(v, '{', 2) is None);
    assert(find_char_from(v, '{', 0) is None);
    reveal_with_fuel(placeholders_from, 2);
}

proof fn entry_95()
    ensures
        keeps_placeholders(ZH_TRANSLATIONS@[95]),
{
    reveal_strlit("  Proceed? ");
    reveal_strlit("  是否继续？ ");
    assert(ZH_TRANSLATIONS@[95] == ("  Proceed? ", "  是否继续？ "));
    let k = "  Proceed? "@;
    let v = "  是否继续？ "@;
    reveal_with_fuel(find_char_from, 18);
    assert(find_char_from(k, '{', 11) is None);
    assert(find_char_from(k, '{', 0) is None);
    assert(find_char_from(v, '{', 8) is None);
    assert(find_char_from(v, '{', 0) is None);
    reveal_with_fuel(placeholders_from, 2);
}

proof fn entry_96()
    ensures
        keeps_placeholders(ZH_TRANSLATIONS@[96]),
{
    reveal_strlit(" [Yes] ");
    reveal_strlit(" [是] ");
    assert(ZH_TRANSLATIONS@[96] == (" [Yes] ", " [是] "));
    let k = " [Yes] "@;
    let v = " [是] "@;
    reveal_with_fuel(find_char_from, 18);
    assert(find_char_from(k, '{', 7) is None);
    assert(find_char_from(k, '{', 0) is None);
    assert(find_char_from(v, '{', 5) is None);
    assert(find_char_from(v, '{', 0) is None);
    reveal_with_fuel(placeholders_from, 2);
}

proof fn entry_97()
    ensures
        keeps_placeholders(ZH_TRANSLATIONS@[97]),
{
    reveal_strlit(" [No] ");
    reveal_strlit(" [否] ");
    assert(ZH_TRANSLATIONS@[97] == (" [No] ", " [否] "));
    let k = " [No] "@;
    let v = " [否] "@;
    reveal_with_fuel(find_char_from, 18);
    assert(find_char_from(k, '{', 6) is None);
    assert(find_char_from(k, '{', 0) is None);
    assert(find_char_from(v, '{', 5) is None);
    assert(find_char_from(v, '{', 0) is None);
    reveal_with_fuel(placeholders_from, 2);
}

proof fn entry_98()
    ensures
        keeps_placeholders(ZH_TRANSLATIONS@[98]),
{
    reveal_strlit(" [No, don't ask again] ");
    reveal_strlit(" [否，不再询问] ");
    assert(ZH_TRANSLATIONS@[98] == (" [No, don't ask again] ", " [否，不再询问] "));
    let k = " [No, don't ask again] "@;
    let v = " [否，不再询问] "@;
    reveal_with_fuel(find_char_from, 18);
    assert(find_char_from(k, '{', 23) is None);
    assert(find_char_from(k, '{', 7) is None);
    assert(find_char_from(k, '{', 0) is None);
    assert(find_char_from(v, '{', 10) is None);
    assert(find_char_from(v, '{', 0) is None);
    reveal_with_fuel(placeholders_from, 2);
}

proof fn entry_99()
    ensures
        keeps_placeholders(ZH_TRANSLATIONS@[99]),
{
    reveal_strlit("flyline set-agent-mode: --command must not be empty");
    reveal_strlit("flyline set-agent-mode：--command 不能为空");
    assert(ZH_TRANSLATIONS@[99] == ("flyline set-agent-mode: --command must not be empty", "flyline set-agent-mode：--command 不能为空"));
    let k = "flyline set-agent-mode: --command must not be empty"@;
    let v = "flyline set-agent-mode：--command 不能为空"@;
    reveal_with_fuel(find_char_from, 18);
    assert(find_char_from(k, '{', 51) is None);
    assert(find_char_from(k, '{', 35) is None);
    assert(find_char_from(k, '{', 19) is None);
    assert(find_char_from(k, '{', 3) is None);
    assert(find_char_from(k, '{', 0) is None);
    assert(find_char_from(v, '{', 37) is None);
    assert(find_char_from(v, '{', 21) is None);
    assert(find_char_from(v, '{', 5) is None);
    assert(find_char_from(v, '{', 0) is None);
    reveal_with_fuel(placeholders_from, 2);
}

proof fn entry_100()
    ensures
        keeps_placeholders(ZH_TRANSLATIONS@[100]),
{
    reveal_strlit("flyline create-prompt-widget animation: --fps must be greater than 0 (got {}); animation '{}' not registered");
    reveal_strlit("flyline create-prompt-widget animation：--fps 必须大于 0（当前为 {}）；动画 '{}' 未注册");
    assert(ZH_TRANSLATIONS@[100] == ("flyline create-prompt-widget animation: --fps must be greater than 0 (got {}); animation '{}' not registered", "flyline create-prompt-widget animation：--fps 必须大于 0（当前为 {}）；动画 '{}' 未注册"));
    let k = "flyline create-prompt-widget animation: --fps must be greater than 0 (got {}); animation '{}' not registered"@;
    let v = "flyline create-prompt-widget animation：--fps 必须大于 0（当前为 {}）；动画 '{}' 未注册"@;
    reveal_with_fuel(find_char_from, 18);
    assert(find_char_from(k, '{', 74) == Some(74int));
    assert(find_char_from(k, '{', 58) == Some(74int));
    assert(find_char_from(k, '{', 42) == Some(74int));
    assert(find_char_from(k, '{', 26) == Some(74int));
    assert(find_char_from(k, '{', 10) == Some(74int));
    assert(find_char_from(k, '{', 0) == Some(74int));
    assert(find_char_from(k, '}', 75) == Some(75int));
    assert(find_char_from(k, '}', 74) == Some(75int));
    assert(find_char_from(k, '{', 90) == Some(90int));
    assert(find_char_from(k, '{', 76) == Some(90int));
    assert(find_char_from(k, '}', 91) == Some(91int));
    assert(find_char_from(k, '}', 90) == Some(91int));
    assert(find_char_from(k, '{', 108) is None);
    assert(find_char_from(k, '{', 92) is None);
    assert(find_char_from(v, '{', 56) == Some(56int));
    assert(find_char_from(v, '{', 40) == Some(56int));
    assert(find_char_from(v, '{', 24) == Some(56int));
    assert(find_char_from(v, '{', 8) == Some(56int));
    assert(find_char_from(v, '{', 0) == Some(56int));
    assert(find_char_from(v, '}', 57) == Some(57int));
    assert(find_char_from(v, '}', 56) == Some(57int));
    assert(find_char_from(v, '{', 64) == Some(64int));
    assert(find_char_from(v, '{', 58) == Some(64int));
    assert(find_char_from(v, '}', 65) == Some(65int));
    assert(find_char_from(v, '}', 64) == Some(65int));
    assert(find_char_from(v, '{', 71) is None);
    assert(find_char_from(v, '{', 66) is None);
    assert(k.subrange(74, 76) =~= v.subrange(56, 58));
    assert(k.subrange(90, 92) =~= v.subrange(64, 66));
    reveal_with_fuel(placeholders_from, 4);
}

proof fn entry_101()
    ensures
        keeps_placeholders(ZH_TRANSLATIONS@[101]),
{
    reveal_strlit("flyline create-prompt-widget custom: --command must not be empty");
    reveal_strlit("flyline create-prompt-widget custom：--command 不能为空");
    assert(ZH_TRANSLATIONS@[101] == ("flyline create-prompt-widget custom: --command must not be empty", "flyline create-prompt-widget custom：--command 不能为空"));
    let k = "flyline create-prompt-widget custom: --command must not be empty"@;
    let v = "flyline create-prompt-widget custom：--command 不能为空"@;
    reveal_with_fuel(find_char_from, 18);
    assert(find_char_from(k, '{', 64) is None);
    assert(find_char_from(k, '{', 48) is None);
    assert(find_char_from(k, '{', 32) is None);
    assert(find_char_from(k, '{', 16) is None);
    assert(find_char_from(k, '{', 0) is None);
    assert(find_char_from(v, '{', 50) is None);
    assert(find_char_from(v, '{', 34) is None);
    assert(find_char_from(v, '{', 18) is None);
    assert(find_char_from(v, '{', 2) is None);
    assert(find_char_from(v, '{', 0) is None);
    reveal_with_fuel(placeholders_from, 2);
}

proof fn entry_102()
    ensures
        keeps_placeholders(ZH_TRANSLATIONS@[102]),
{
    reveal_strlit("flyline create-prompt-widget custom: --block timeout must be non-negative (got {})");
    reveal_strlit("flyline create-prompt-widget custom：--block 超时时间必须为非负数（当前为 {}）");
    assert(ZH_TRANSLATIONS@[102] == ("flyline create-prompt-widget custom: --block timeout must be non-negative (got {})", "flyline create-prompt-widget custom：--block 超时时间必须为非负数（当前为 {}）"));
    let k = "flyline create-prompt-widget custom: --block timeout must be non-negative (got {})"@;
    let v = "flyline create-prompt-widget custom：--block 超时时间必须为非负数（当前为 {}）"@;
    reveal_with_fuel(find_char_from, 18);
    assert(find_char_from(k, '{', 79) == Some(79int));
    assert(find_char_from(k, '{', 63) == Some(79int));
    assert(find_char_from(k, '{', 47) == Some(79int));
    assert(find_char_from(k, '{', 31) == Some(79int));
    assert(find_char_from(k, '{', 15) == Some(79int));
    assert(find_char_from(k, '{', 0) == Some(79int));
    assert(find_char_from(k, '}', 80) == Some(80int));
    assert(find_char_from(k, '}', 79) == Some(80int));
    assert(find_char_from(k, '{', 82) is None);
    assert(find_char_from(k, '{', 81) is None);
    assert(find_char_from(v, '{', 59) == Some(59int));
    assert(find_char_from(v, '{', 43) == Some(59int));
    assert(find_char_from(v, '{', 27) == Some(59int));
    assert(find_char_from(v, '{', 11) == Some(59int));
    assert(find_char_from(v, '{', 0) == Some(59int));
    assert(find_char_from(v, '}', 60) == Some(60int));
    assert(find_char_from(v, '}', 59) == Some(60int));
    assert(find_char_from(v, '{', 62) is None);
    assert(find_char_from(v, '{', 61) is None);
    assert(k.subrange(79, 81) =~= v.subrange(59, 61));
    reveal_with_fuel(placeholders_from, 3);
}

proof fn entry_103()
    ensures
        keeps_placeholders(ZH_TRANSLATIONS@[103]),
{
    reveal_strlit("flyline create-prompt-widget custom: --placeholder must be a number or 'prev', got {:?}");
    reveal_strlit("flyline create-prompt-widget custom：--placeholder 必须是数字或 'prev'，当前为 {:?}");
    assert(ZH_TRANSLATIONS@[103] == ("flyline create-prompt-widget custom: --placeholder must be a number or 'prev', got {:?}", "flyline create-prompt-widget custom：--placeholder 必须是数字或 'prev'，当前为 {:?}"));
    let k = "flyline create-prompt-widget custom: --placeholder must be a number or 'prev', got {:?}"@;
    let v = "flyline create-prompt-widget custom：--placeholder 必须是数字或 'prev'，当前为 {:?}"@;
    reveal_with_fuel(find_char_from, 18);
    assert(find_char_from(k, '{', 83) == Some(83int));
    assert(find_char_from(k, '{', 67) == Some(83int));
    assert(find_char_from(k, '{', 51) == Some(83int));
    assert(find_char_from(k, '{', 35) == Some(83int));
    assert(find_char_from(k, '{', 19) == Some(83int));
    assert(find_char_from(k, '{', 3) == Some(83int));
    assert(find_char_from(k, '{', 0) == Some(83int));
    assert(find_char_from(k, '}', 86) == Some(86int));
    assert(find_char_from(k, '}', 83) == Some(86int));
    assert(find_char_from(k, '{', 87) is None);
    assert(find_char_from(v, '{', 68) == Some(68int));
    assert(find_char_from(v, '{', 52) == Some(68int));
    assert(find_char_from(v, '{', 36) == Some(68int));
    assert(find_char_from(v, '{', 20) == Some(68int));
    assert(find_char_from(v, '{', 4) == Some(68int));
    assert(find_char_from(v, '{', 0) == Some(68int));
    assert(find_char_from(v, '}', 71) == Some(71int));
    assert(find_char_from(v, '}', 68) == Some(71int));
    assert(find_char_from(v, '{', 72) is None);
    assert(k.subrange(83, 87) =~= v.subrange(68, 72));
    reveal_with_fuel(placeholders_from, 3);
}

proof fn entry_104()
    ensures
        keeps_placeholders(ZH_TRANSLATIONS@[104]),
{
    reveal_strlit("flyline set-style: argument must be NAME=STYLE, got {:?}");
    reveal_strlit("flyline set-style：参数必须是 NAME=STYLE 格式，当前为 {:?}");
    assert(ZH_TRANSLATIONS@[104] == ("flyline set-style: argument must be NAME=STYLE, got {:?}", "flyline set-style：参数必须是 NAME=STYLE 格式，当前为 {:?}"));
    let k = "flyline set-style: argument must be NAME=STYLE, got {:?}"@;
    let v = "flyline set-style：参数必须是 NAME=STYLE 格式，当前为 {:?}"@;
    reveal_with_fuel(find_char_from, 18);
    assert(find_char_from(k, '{', 52) == Some(52int));
    assert(find_char_from(k, '{', 36) == Some(52int));
    assert(find_char_from(k, '{', 20) == Some(52int));
    assert(find_char_from(k, '{', 4) == Some(52int));
    assert(find_char_from(k, '{', 0) == Some(52int));
    assert(find_char_from(k, '}', 55) == Some(55int));
    assert(find_char_from(k, '}', 52) == Some(55int));
    assert(find_char_from(k, '{', 56) is None);
    assert(find_char_from(v, '{', 42) == Some(42int));
    assert(find_char_from(v, '{', 26) == Some(42int));
    assert(find_char_from(v, '{', 10) == Some(42int));
    assert(find_char_from(v, '{', 0) == Some(42int));
    assert(find_char_from(v, '}', 45) == Some(45int));
    assert(find_char_from(v, '}', 42) == Some(45int));
    assert(find_char_from(v, '{', 46) is None);
    assert(k.subrange(52, 56) =~= v.subrange(42, 46));
    reveal_with_fuel(placeholders_from, 3);
}

proof fn entry_105()
    ensures
        keeps_placeholders(ZH_TRANSLATIONS@[105]),
{
    reveal_strlit("flyline set-style: unknown style name {:?}. Run 'flyline set-style --help' for valid names.");
    reveal_strlit("flyline set-style：未知样式名称 {:?}。运行 'flyline set-style --help' 查看有效名称。");
    assert(ZH_TRANSLATIONS@[105] == ("flyline set-style: unknown style name {:?}. Run 'flyline set-style --help' for valid names.", "flyline set-style：未知样式名称 {:?}。运行 'flyline set-style --help' 查看有效名称。"));
    let k = "flyline set-style: unknown style name {:?}. Run 'flyline set-style --help' for valid names."@;
    let v = "flyline set-style：未知样式名称 {:?}。运行 'flyline set-style --help' 查看有效名称。"@;
    reveal_with_fuel(find_char_from, 18);
    assert(find_char_from(k, '{', 38) == Some(38int));
    assert(find_char_from(k, '{', 22) == Some(38int));
    assert(find_char_from(k, '{', 6) == Some(38int));
    assert(find_char_from(k, '{', 0) == Some(38int));
    assert(find_char_from(k, '}', 41) == Some(41int));
    assert(find_char_from(k, '}', 38) == Some(41int));
    assert(find_char_from(k, '{', 91) is None);
    assert(find_char_from(k, '{', 75) is None);
    assert(find_char_from(k, '{', 59) is None);
    assert(find_char_from(k, '{', 43) is None);
    assert(find_char_from(k, '{', 42) is None);
    assert(find_char_from(v, '{', 25) == Some(25int));
    assert(find_char_from(v, '{', 9) == Some(25int));
    assert(find_char_from(v, '{', 0) == Some(25int));
    assert(find_char_from(v, '}', 28) == Some(28int));
    assert(find_char_from(v, '}', 25) == Some(28int));
    assert(find_char_from(v, '{', 67) is None);
    assert(find_char_from(v, '{', 51) is None);
    assert(find_char_from(v, '{', 35) is None);
    assert(find_char_from(v, '{', 29) is None);
    assert(k.subrange(38, 42) =~= v.subrange(25, 29));
    reveal_with_fuel(placeholders_from, 3);
}

proof fn entry_106()
    ensures
        keeps_placeholders(ZH_TRANSLATIONS@[106]),
{
    reveal_strlit("flyline set-style: invalid style for {:?}: {}");
    reveal_strlit("flyline set-style：{:?} 的样式无效：{}");
    assert(ZH_TRANSLATIONS@[106] == ("flyline set-style: invalid style for {:?}: {}", "flyline set-style：{:?} 的样式无效：{}"));
    let k = "flyline set-style: invalid style for {:?}: {}"@;
    let v = "flyline set-style：{:?} 的样式无效：{}"@;
    reveal_with_fuel(find_char_from, 18);
    assert(find_char_from(k, '{', 37) == Some(37int));
    assert(find_char_from(k, '{', 21) == Some(37int));
    assert(find_char_from(k, '{', 5) == Some(37int));
    assert(find_char_from(k, '{', 0) == Some(37int));
    assert(find_char_from(k, '}', 40) == Some(40int));
    assert(find_char_from(k, '}', 37) == Some(40int));
    assert(find_char_from(k, '{', 43) == Some(43int));
    assert(find_char_from(k, '{', 41) == Some(43int));
    assert(find_char_from(k, '}', 44) == Some(44int));
    assert(find_char_from(k, '}', 43) == Some(44int));
    assert(find_char_from(k, '{', 45) is None);
    assert(find_char_from(v, '{', 18) == Some(18int));
    assert(find_char_from(v, '{', 2) == Some(18int));
    assert(find_char_from(v, '{', 0) == Some(18int));
    assert(find_char_from(v, '}', 21) == Some(21int));
    assert(find_char_from(v, '}', 18) == Some(21int));
    assert(find_char_from(v, '{', 29) == Some(29int));
    assert(find_char_from(v, '{', 22) == Some(29int));
    assert(find_char_from(v, '}', 30) == Some(30int));
    assert(find_char_from(v, '}', 29) == Some(30int));
    assert(find_char_from(v, '{', 31) is None);
    assert(k.subrange(37, 41) =~= v.subrange(18, 22));
    assert(k.subrange(43, 45) =~= v.subrange(29, 31));
    reveal_with_fuel(placeholders_from, 4);
}

proof fn entry_107()
    ensures
        keeps_placeholders(ZH_TRANSLATIONS@[107]),
{
    reveal_strlit("flyline key bind: {}");
    reveal_strlit("flyline key bind：{}");
    assert(ZH_TRANSLATIONS@[107] == ("flyline key bind: {}", "flyline key bind：{}"));
    let k = "flyline key bind: {}"@;
    let v = "flyline key bind：{}"@;
    reveal_with_fuel(find_char_from, 18);
    assert(find_char_from(k, '{', 18) == Some(18int));
    assert(find_char_from(k, '{', 2) == Some(18int));
    assert(find_char_from(k, '{', 0) == Some(18int));
    assert(find_char_from(k, '}', 19) == Some(19int));
    assert(find_char_from(k, '}', 18) == Some(19int));
    assert(find_char_from(k, '{', 20) is None);
    assert(find_char_from(v, '{', 17) == Some(17int));
    assert(find_char_from(v, '{', 1) == Some(17int));
    assert(find_char_from(v, '{', 0) == Some(17int));
    assert(find_char_from(v, '}', 18) == Some(18int));
    assert(find_char_from(v, '}', 17) == Some(18int));
    assert(find_char_from(v, '{', 19) is None);
    assert(k.subrange(18, 20) =~= v.subrange(17, 19));
    reveal_with_fuel(placeholders_from, 3);
}

proof fn entry_108()
    ensures
        keeps_placeholders(ZH_TRANSLATIONS@[108]),
{
    reveal_strlit("flyline key remap: failed to parse remap '{}' -> '{}': {}");
    reveal_strlit("flyline key remap：无法解析重映射 '{}' -> '{}'：{}");
    assert(ZH_TRANSLATIONS@[108] == ("flyline key remap: failed to parse remap '{}' -> '{}': {}", "flyline key remap：无法解析重映射 '{}' -> '{}'：{}"));
    let k = "flyline key remap: failed to parse remap '{}' -> '{}': {}"@;
    let v = "flyline key remap：无法解析重映射 '{}' -> '{}'：{}"@;
    reveal_with_fuel(find_char_from, 18);
    assert(find_char_from(k, '{', 42) == Some(42int));
    assert(find_char_from(k, '{', 26) == Some(42int));
    assert(find_char_from(k, '{', 10) == Some(42int));
    assert(find_char_from(k, '{', 0) == Some(42int));
    assert(find_char_from(k, '}', 43) == Some(43int));
    assert(find_char_from(k, '}', 42) == Some(43int));
    assert(find_char_from(k, '{', 50) == Some(50int));
    assert(find_char_from(k, '{', 44) == Some(50int));
    assert(find_char_from(k, '}', 51) == Some(51int));
    assert(find_char_from(k, '}', 50) == Some(51int));
    assert(find_char_from(k, '{', 55) == Some(55int));
    assert(find_char_from(k, '{', 52) == Some(55int));
    assert(find_char_from(k, '}', 56) == Some(56int));
    assert(find_char_from(k, '}', 55) == Some(56int));
    assert(find_char_from(k, '{', 57) is None);
    assert(find_char_from(v, '{', 27) == Some(27int));
    assert(find_char_from(v, '{', 11) == Some(27int));
    assert(find_char_from(v, '{', 0) == Some(27int));
    assert(find_char_from(v, '}', 28) == Some(28int));
    assert(find_char_from(v, '}', 27) == Some(28int));
    assert(find_char_from(v, '{', 35) == Some(35int));
    assert(find_char_from(v, '{', 29) == Some(35int));
    assert(find_char_from(v, '}', 36) == Some(36int));
    assert(find_char_from(v, '}', 35) == Some(36int));
    assert(find_char_from(v, '{', 39) == Some(39int));
    assert(find_char_from(v, '{', 37) == Some(39int));
    assert(find_char_from(v, '}', 40) == Some(40int));
    assert(find_char_from(v, '}', 39) == Some(40int));
    assert(find_char_from(v, '{', 41) is None);
    assert(k.subrange(42, 44) =~= v.subrange(27, 29));
    assert(k.subrange(50, 52) =~= v.subrange(35, 37));
    assert(k.subrange(55, 57) =~= v.subrange(39, 41));
    reveal_with_fuel(placeholders_from, 5);
}

proof fn entry_109()
    ensures
        keeps_placeholders(ZH_TRANSLATIONS@[109]),
{
    reveal_strlit("flyline suggestions: --num-suggestion-rows must be greater than 0");
    reveal_strlit("flyline suggestions：--num-suggestion-rows 必须大于 0");
    assert(ZH_TRANSLATIONS@[109] == ("flyline suggestions: --num-suggestion-rows must be greater than 0", "flyline suggestions：--num-suggestion-rows 必须大于 0"));
    let k = "flyline suggestions: --num-suggestion-rows must be greater than 0"@;
    let v = "flyline suggestions：--num-suggestion-rows 必须大于 0"@;
    reveal_with_fuel(find_char_from, 18);
    assert(find_char_from(k, '{', 65) is None);
    assert(find_char_from(k, '{', 49) is None);
    assert(find_char_from(k, '{', 33) is None);
    assert(find_char_from(k, '{', 17) is None);
    assert(find_char_from(k, '{', 1) is None);
    assert(find_char_from(k, '{', 0) is None);
    assert(find_char_from(v, '{', 48) is None);
    assert(find_char_from(v, '{', 32) is None);
    assert(find_char_from(v, '{', 16) is None);
    assert(find_char_from(v, '{', 0) is None);
    reveal_with_fuel(placeholders_from, 2);
}

proof fn entry_110()
    ensures
        keeps_placeholders(ZH_TRANSLATIONS@[110]),
{
    reveal_strlit("flyline time: invalid Chrono format string: {:?}");
    reveal_strlit("flyline time：无效的 Chrono 格式字符串：{:?}");
    assert(ZH_TRANSLATIONS@[110] == ("flyline time: invalid Chrono format string: {:?}", "flyline time：无效的 Chrono 格式字符串：{:?}"));
    let k = "flyline time: invalid Chrono format string: {:?}"@;
    let v = "flyline time：无效的 Chrono 格式字符串：{:?}"@;
    reveal_with_fuel(find_char_from, 18);
    assert(find_char_from(k, '{', 44) == Some(44int));
    assert(find_char_from(k, '{', 28) == Some(44int));
    assert(find_char_from(k, '{', 12) == Some(44int));
    assert(find_char_from(k, '{', 0) == Some(44int));
    assert(find_char_from(k, '}', 47) == Some(47int));
    assert(find_char_from(k, '}', 44) == Some(47int));
    assert(find_char_from(k, '{', 48) is None);
    assert(find_char_from(v, '{', 30) == Some(30int));
    assert(find_char_from(v, '{', 14) == Some(30int));
    assert(find_char_from(v, '{', 0) == Some(30int));
    assert(find_char_from(v, '}', 33) == Some(33int));
    assert(find_char_from(v, '}', 30) == Some(33int));
    assert(find_char_from(v, '{', 34) is None);
    assert(k.subrange(44, 48) =~= v.subrange(30, 34));
    reveal_with_fuel(placeholders_from, 3);
}

proof fn entry_111()
    ensures
        keeps_placeholders(ZH_TRANSLATIONS@[111]),
{
    reveal_strlit("flyline set-cursor: --style, --effect, --effect-speed, and --effect-easing require --backend flyline");
    reveal_strlit("flyline set-cursor：--style、--effect、--effect-speed 和 --effect-easing 需要 --backend flyline");
    assert(ZH_TRANSLATIONS@[111] == ("flyline set-cursor: --style, --effect, --effect-speed, and --effect-easing require --backend flyline", "flyline set-cursor：--style、--effect、--effect-speed 和 --effect-easing 需要 --backend flyline"));
    let k = "flyline set-cursor: --style, --effect, --effect-speed, and --effect-easing require --backend flyline"@;
    let v = "flyline set-cursor：--style、--effect、--effect-speed 和 --effect-easing 需要 --backend flyline"@;
    reveal_with_fuel(find_char_from, 18);
    assert(find_char_from(k, '{', 100) is None);
    assert(find_char_from(k, '{', 84) is None);
    assert(find_char_from(k, '{', 68) is None);
    assert(find_char_from(k, '{', 52) is None);
    assert(find_char_from(k, '{', 36) is None);
    assert(find_char_from(k, '{', 20) is None);
    assert(find_char_from(k, '{', 4) is None);
    assert(find_char_from(k, '{', 0) is None);
    assert(find_char_from(v, '{', 89) is None);
    assert(find_char_from(v, '{', 73) is None);
    assert(find_char_from(v, '{', 57) is None);
    assert(find_char_from(v, '{', 41) is None);
    assert(find_char_from(v, '{', 25) is None);
    assert(find_char_from(v, '{', 9) is None);
    assert(find_char_from(v, '{', 0) is None);
    reveal_with_fuel(placeholders_from, 2);
}

proof fn entry_112()
    ensures
        keeps_placeholders(ZH_TRANSLATIONS@[112]),
{
    reveal_strlit("flyline set-cursor: --interpolate must be a positive number or 'none' (got {:?})");
    reveal_strlit("flyline set-cursor：--interpolate 必须为正数或 'none'（当前为 {:?}）");
    assert(ZH_TRANSLATIONS@[112] == ("flyline set-cursor: --interpolate must be a positive number or 'none' (got {:?})", "flyline set-cursor：--interpolate 必须为正数或 'none'（当前为 {:?}）"));
    let k = "flyline set-cursor: --interpolate must be a positive number or 'none' (got {:?})"@;
    let v = "flyline set-cursor：--interpolate 必须为正数或 'none'（当前为 {:?}）"@;
    reveal_with_fuel(find_char_from, 18);
    assert(find_char_from(k, '{', 75) == Some(75int));
    assert(find_char_from(k, '{', 59) == Some(75int));
    assert(find_char_from(k, '{', 43) == Some(75int));
    assert(find_char_from(k, '{', 27) == Some(75int));
    assert(find_char_from(k, '{', 11) == Some(75int));
    assert(find_char_from(k, '{', 0) == Some(75int));
    assert(find_char_from(k, '}', 78) == Some(78int));
    assert(find_char_from(k, '}', 75) == Some(78int));
    assert(find_char_from(k, '{', 80) is None);
    assert(find_char_from(k, '{', 79) is None);
    assert(find_char_from(v, '{', 51) == Some(51int));
    assert(find_char_from(v, '{', 35) == Some(51int));
    assert(find_char_from(v, '{', 19) == Some(51int));
    assert(find_char_from(v, '{', 3) == Some(51int));
    assert(find_char_from(v, '{', 0) == Some(51int));
    assert(find_char_from(v, '}', 54) == Some(54int));
    assert(find_char_from(v, '}', 51) == Some(54int));
    assert(find_char_from(v, '{', 56) is None);
    assert(find_char_from(v, '{', 55) is None);
    assert(k.subrange(75, 79) =~= v.subrange(51, 55));
    reveal_with_fuel(placeholders_from, 3);
}

proof fn entry_113()
    ensures
        keeps_placeholders(ZH_TRANSLATIONS@[113]),
{
    reveal_strlit("flyline set-cursor: --style requires --backend flyline");
    reveal_strlit("flyline set-cursor：--style 需要 --backend flyline");
    assert(ZH_TRANSLATIONS@[113] == ("flyline set-cursor: --style requires --backend flyline", "flyline set-cursor：--style 需要 --backend flyline"));
    let k = "flyline set-cursor: --style requires --backend flyline"@;
    let v = "flyline set-cursor：--style 需要 --backend flyline"@;
    reveal_with_fuel(find_char_from, 18);
    assert(find_char_from(k, '{', 54) is None);
    assert(find_char_from(k, '{', 38) is None);
    assert(find_char_from(k, '{', 22) is None);
    assert(find_char_from(k, '{', 6) is None);
    assert(find_char_from(k, '{', 0) is None);
    assert(find_char_from(v, '{', 47) is None);
    assert(find_char_from(v, '{', 31) is None);
    assert(find_char_from(v, '{', 15) is None);
    assert(find_char_from(v, '{', 0) is None);
    reveal_with_fuel(placeholders_from, 2);
}

proof fn entry_114()
    ensures
        keeps_placeholders(ZH_TRANSLATIONS@[114]),
{
    reveal_strlit("flyline set-cursor: invalid --style {:?}: {}");
    reveal_strlit("flyline set-cursor：无效的 --style {:?}：{}");
    assert(ZH_TRANSLATIONS@[114] == ("flyline set-cursor: invalid --style {:?}: {}", "flyline set-cursor：无效的 --style {:?}：{}"));
    let k = "flyline set-cursor: invalid --style {:?}: {}"@;
    let v = "flyline set-cursor：无效的 --style {:?}：{}"@;
    reveal_with_fuel(find_char_from, 18);
    assert(find_char_from(k, '{', 36) == Some(36int));
    assert(find_char_from(k, '{', 20) == Some(36int));
    assert(find_char_from(k, '{', 4) == Some(36int));
    assert(find_char_from(k, '{', 0) == Some(36int));
    assert(find_char_from(k, '}', 39) == Some(39int));
    assert(find_char_from(k, '}', 36) == Some(39int));
    assert(find_char_from(k, '{', 42) == Some(42int));
    assert(find_char_from(k, '{', 40) == Some(42int));
    assert(find_char_from(k, '}', 43) == Some(43int));
    assert(find_char_from(k, '}', 42) == Some(43int));
    assert(find_char_from(k, '{', 44) is None);
    assert(find_char_from(v, '{', 31) == Some(31int));
    assert(find_char_from(v, '{', 15) == Some(31int));
    assert(find_char_from(v, '{', 0) == Some(31int));
    assert(find_char_from(v, '}', 34) == Some(34int));
    assert(find_char_from(v, '}', 31) == Some(34int));
    assert(find_char_from(v, '{', 36) == Some(36int));
    assert(find_char_from(v, '{', 35) == Some(36int));
    assert(find_char_from(v, '}', 37) == Some(37int));
    assert(find_char_from(v, '}', 36) == Some(37int));
    assert(find_char_from(v, '{', 38) is None);
    assert(k.subrange(36, 40) =~= v.subrange(31, 35));
    assert(k.subrange(42, 44) =~= v.subrange(36, 38));
    reveal_with_fuel(placeholders_from, 4);
}

proof fn entry_115()
    ensures
        keeps_placeholders(ZH_TRANSLATIONS@[115]),
{
    reveal_strlit("flyline set-cursor: --effect requires --backend flyline");
    reveal_strlit("flyline set-cursor：--effect 需要 --backend flyline");
    assert(ZH_TRANSLATIONS@[115] == ("flyline set-cursor: --effect requires --backend flyline", "flyline set-cursor：--effect 需要 --backend flyline"));
    let k = "flyline set-cursor: --effect requires --backend flyline"@;
    let v = "flyline set-cursor：--effect 需要 --backend flyline"@;
    reveal_with_fuel(find_char_from, 18);
    assert(find_char_from(k, '{', 55) is None);
    assert(find_char_from(k, '{', 39) is None);
    assert(find_char_from(k, '{', 23) is None);
    assert(find_char_from(k, '{', 7) is None);
    assert(find_char_from(k, '{', 0) is None);
    assert(find_char_from(v, '{', 48) is None);
    assert(find_char_from(v, '{', 32) is None);
    assert(find_char_from(v, '{', 16) is None);
    assert(find_char_from(v, '{', 0) is None);
    reveal_with_fuel(placeholders_from, 2);
}

proof fn entry_116()
    ensures
        keeps_placeholders(ZH_TRANSLATIONS@[116]),
{
    reveal_strlit("flyline set-cursor: --effect fade requires a custom style with an RGB background color (e.g. '#ff0000')");
    reveal_strlit("flyline set-cursor：--effect fade 需要带有 RGB 背景色的自定义样式（例如 '#ff0000'）");
    assert(ZH_TRANSLATIONS@[116] == ("flyline set-cursor: --effect fade requires a custom style with an RGB background color (e.g. '#ff0000')", "flyline set-cursor：--effect fade 需要带有 RGB 背景色的自定义样式（例如 '#ff0000'）"));
    let k = "flyline set-cursor: --effect fade requires a custom style with an RGB background color (e.g. '#ff0000')"@;
    let v = "flyline set-cursor：--effect fade 需要带有 RGB 背景色的自定义样式（例如 '#ff0000'）"@;
    reveal_with_fuel(find_char_from, 18);
    assert(find_char_from(k, '{', 103) is None);
    assert(find_char_from(k, '{', 87) is None);
    assert(find_char_from(k, '{', 71) is None);
    assert(find_char_from(k, '{', 55) is None);
    assert(find_char_from(k, '{', 39) is None);
    assert(find_char_from(k, '{', 23) is None);
    assert(find_char_from(k, '{', 7) is None);
    assert(find_char_from(k, '{', 0) is None);
    assert(find_char_from(v, '{', 65) is None);
    assert(find_char_from(v, '{', 49) is None);
    assert(find_char_from(v, '{', 33) is None);
    assert(find_char_from(v, '{', 17) is None);
    assert(find_char_from(v, '{', 1) is None);
    assert(find_char_from(v, '{', 0) is None);
    reveal_with_fuel(placeholders_from, 2);
}

proof fn entry_117()
    ensures
        keeps_placeholders(ZH_TRANSLATIONS@[117]),
{
    reveal_strlit("flyline set-cursor: --effect-speed requires --backend flyline");
    reveal_strlit("flyline set-cursor：--effect-speed 需要 --backend flyline");
    assert(ZH_TRANSLATIONS@[117] == ("flyline set-cursor: --effect-speed requires --backend flyline", "flyline set-cursor：--effect-speed 需要 --backend flyline"));
    let k = "flyline set-cursor: --effect-speed requires --backend flyline"@;
    let v = "flyline set-cursor：--effect-speed 需要 --backend flyline"@;
    reveal_with_fuel(find_char_from, 18);
    assert(find_char_from(k, '{', 61) is None);
    assert(find_char_from(k, '{', 45) is None);
    assert(find_char_from(k, '{', 29) is None);
    assert(find_char_from(k, '{', 13) is None);
    assert(find_char_from(k, '{', 0) is None);
    assert(find_char_from(v, '{', 54) is None);
    assert(find_char_from(v, '{', 38) is None);
    assert(find_char_from(v, '{', 22) is None);
    assert(find_char_from(v, '{', 6) is None);
    assert(find_char_from(v, '{', 0) is None);
    reveal_with_fuel(placeholders_from, 2);
}

proof fn entry_118()
    ensures
        keeps_placeholders(ZH_TRANSLATIONS@[118]),
{
    reveal_strlit("flyline set-cursor: --effect-speed must be positive (got {})");
    reveal_strlit("flyline set-cursor：--effect-speed 必须为正数（当前为 {}）");
    assert(ZH_TRANSLATIONS@[118] == ("flyline set-cursor: --effect-speed must be positive (got {})", "flyline set-cursor：--effect-speed 必须为正数（当前为 {}）"));
    let k = "flyline set-cursor: --effect-speed must be positive (got {})"@;
    let v = "flyline set-cursor：--effect-speed 必须为正数（当前为 {}）"@;
    reveal_with_fuel(find_char_from, 18);
    assert(find_char_from(k, '{', 57) == Some(57int));
    assert(find_char_from(k, '{', 41) == Some(57int));
    assert(find_char_from(k, '{', 25) == Some(57int));
    assert(find_char_from(k, '{', 9) == Some(57int));
    assert(find_char_from(k, '{', 0) == Some(57int));
    assert(find_char_from(k, '}', 58) == Some(58int));
    assert(find_char_from(k, '}', 57) == Some(58int));
    assert(find_char_from(k, '{', 60) is None);
    assert(find_char_from(k, '{', 59) is None);
    assert(find_char_from(v, '{', 44) == Some(44int));
    assert(find_char_from(v, '{', 28) == Some(44int));
    assert(find_char_from(v, '{', 12) == Some(44int));
    assert(find_char_from(v, '{', 0) == Some(44int));
    assert(find_char_from(v, '}', 45) == Some(45int));
    assert(find_char_from(v, '}', 44) == Some(45int));
    assert(find_char_from(v, '{', 47) is None);
    assert(find_char_from(v, '{', 46) is None);
    assert(k.subrange(57, 59) =~= v.subrange(44, 46));
    reveal_with_fuel(placeholders_from, 3);
}

proof fn entry_119()
    ensures
        keeps_placeholders(ZH_TRANSLATIONS@[119]),
{
    reveal_strlit("flyline set-cursor: --effect-easing requires --backend flyline");
    reveal_strlit("flyline set-cursor：--effect-easing 需要 --backend flyline");
    assert(ZH_TRANSLATIONS@[119] == ("flyline set-cursor: --effect-easing requires --backend flyline", "flyline set-cursor：--effect-easing 需要 --backend flyline"));
    let k = "flyline set-cursor: --effect-easing requires --backend flyline"@;
    let v = "flyline set-cursor：--effect-easing 需要 --backend flyline"@;
    reveal_with_fuel(find_char_from, 18);
    assert(find_char_from(k, '{', 62) is None);
    assert(find_char_from(k, '{', 46) is None);
    assert(find_char_from(k, '{', 30) is None);
    assert(find_char_from(k, '{', 14) is None);
    assert(find_char_from(k, '{', 0) is None);
    assert(find_char_from(v, '{', 55) is None);
    assert(find_char_from(v, '{', 39) is None);
    assert(find_char_from(v, '{', 23) is None);
    assert(find_char_from(v, '{', 7) is None);
    assert(find_char_from(v, '{', 0) is None);
    reveal_with_fuel(placeholders_from, 2);
}

proof fn entry_120()
    ensures
        keeps_placeholders(ZH_TRANSLATIONS@[120]),
{
    reveal_strlit("Warning: could not parse key sequence '{}'");
    reveal_strlit("警告：无法解析按键序列 '{}'");
    assert(ZH_TRANSLATIONS@[120] == ("Warning: could not parse key sequence '{}'", "警告：无法解析按键序列 '{}'"));
    let k = "Warning: could not parse key sequence '{}'"@;
    let v = "警告：无法解析按键序列 '{}'"@;
    reveal_with_fuel(find_char_from, 18);
    assert(find_char_from(k, '{', 39) == Some(39int));
    assert(find_char_from(k, '{', 23) == Some(39int));
    assert(find_char_from(k, '{', 7) == Some(39int));
    assert(find_char_from(k, '{', 0) == Some(39int));
    assert(find_char_from(k, '}', 40) == Some(40int));
    assert(find_char_from(k, '}', 39) == Some(40int));
    assert(find_char_from(k, '{', 42) is None);
    assert(find_char_from(k, '{', 41) is None);
    assert(find_char_from(v, '{', 13) == Some(13int));
    assert(find_char_from(v, '{', 0) == Some(13int));
    assert(find_char_from(v, '}', 14) == Some(14int));
    assert(find_char_from(v, '}', 13) == Some(14int));
    assert(find_char_from(v, '{', 16) is None);
    assert(find_char_from(v, '{', 15) is None);
    assert(k.subrange(39, 41) =~= v.subrange(13, 15));
    reveal_with_fuel(placeholders_from, 3);
}

proof fn entry_121()
    ensures
        keeps_placeholders(ZH_TRANSLATIONS@[121]),
{
    reveal_strlit("⎘ Copy (selection)");
    reveal_strlit("⎘ 复制（选中内容）");
    assert(ZH_TRANSLATIONS@[121] == ("⎘ Copy (selection)", "⎘ 复制（选中内容）"));
    let k = "⎘ Copy (selection)"@;
    let v = "⎘ 复制（选中内容）"@;
    reveal_with_fuel(find_char_from, 18);
    assert(find_char_from(k, '{', 18) is None);
    assert(find_char_from(k, '{', 2) is None);
    assert(find_char_from(k, '{', 0) is None);
    assert(find_char_from(v, '{', 10) is None);
    assert(find_char_from(v, '{', 0) is None);
    reveal_with_fuel(placeholders_from, 2);
}

proof fn entry_122()
    ensures
        keeps_placeholders(ZH_TRANSLATIONS@[122]),
{
    reveal_strlit("⎘ Copy (buffer)");
    reveal_strlit("⎘ 复制（缓冲区）");
    assert(ZH_TRANSLATIONS@[122] == ("⎘ Copy (buffer)", "⎘ 复制（缓冲区）"));
    let k = "⎘ Copy (buffer)"@;
    let v = "⎘ 复制（缓冲区）"@;
    reveal_with_fuel(find_char_from, 18);
    assert(find_char_from(k, '{', 15) is None);
    assert(find_char_from(k, '{', 0) is None);
    assert(find_char_from(v, '{', 9) is None);
    assert(find_char_from(v, '{', 0) is None);
    reveal_with_fuel(placeholders_from, 2);
}

proof fn entry_123()
    ensures
        keeps_placeholders(ZH_TRANSLATIONS@[123]),
{
    reveal_strlit("⎘ Copy (history entry)");
    reveal_strlit("⎘ 复制（历史条目）");
    assert(ZH_TRANSLATIONS@[123] == ("⎘ Copy (history entry)", "⎘ 复制（历史条目）"));
    let k = "⎘ Copy (history entry)"@;
    let v = "⎘ 复制（历史条目）"@;
    reveal_with_fuel(find_char_from, 18);
    assert(find_char_from(k, '{', 22) is None);
    assert(find_char_from(k, '{', 6) is None);
    assert(find_char_from(k, '{', 0) is None);
    assert(find_char_from(v, '{', 10) is None);
    assert(find_char_from(v, '{', 0) is None);
    reveal_with_fuel(placeholders_from, 2);
}

proof fn entry_124()
    ensures
        keeps_placeholders(ZH_TRANSLATIONS@[124]),
{
    reveal_strlit("⎘ Copy (cwd)");
    reveal_strlit("⎘ 复制（当前目录）");
    assert(ZH_TRANSLATIONS@[124] == ("⎘ Copy (cwd)", "⎘ 复制（当前目录）"));
    let k = "⎘ Copy (cwd)"@;
    let v = "⎘ 复制（当前目录）"@;
    reveal_with_fuel(find_char_from, 18);
    assert(find_char_from(k, '{', 12) is None);
    assert(find_char_from(k, '{', 0) is None);
    assert(find_char_from(v, '{', 10) is None);
    assert(find_char_from(v, '{', 0) is None);
    reveal_with_fuel(placeholders_from, 2);
}

proof fn entry_125()
    ensures
        keeps_placeholders(ZH_TRANSLATIONS@[125]),
{
    reveal_strlit("⎘ Copy (suggestion)");
    reveal_strlit("⎘ 复制（建议）");
    assert(ZH_TRANSLATIONS@[125] == ("⎘ Copy (suggestion)", "⎘ 复制（建议）"));
    let k = "⎘ Copy (suggestion)"@;
    let v = "⎘ 复制（建议）"@;
    reveal_with_fuel(find_char_from, 18);
    assert(find_char_from(k, '{', 19) is None);
    assert(find_char_from(k, '{', 3) is None);
    assert(find_char_from(k, '{', 0) is None);
    assert(find_char_from(v, '{', 8) is None);
    assert(find_char_from(v, '{', 0) is None);
    reveal_with_fuel(placeholders_from, 2);
}

proof fn entry_126()
    ensures
        keeps_placeholders(ZH_TRANSLATIONS@[126]),
{
    reveal_strlit("⎘ Copy (AI result)");
    reveal_strlit("⎘ 复制（AI 结果）");
    assert(ZH_TRANSLATIONS@[126] == ("⎘ Copy (AI result)", "⎘ 复制（AI 结果）"));
    let k = "⎘ Copy (AI result)"@;
    let v = "⎘ 复制（AI 结果）"@;
    reveal_with_fuel(find_char_from, 18);
    assert(find_char_from(k, '{', 18) is None);
    assert(find_char_from(k, '{', 2) is None);
    assert(find_char_from(k, '{', 0) is None);
    assert(find_char_from(v, '{', 11) is None);
    assert(find_char_from(v, '{', 0) is None);
    reveal_with_fuel(placeholders_from, 2);
}

proof fn entry_127()
    ensures
        keeps_placeholders(ZH_TRANSLATIONS@[127]),
{
    reveal_strlit("⎘ Copy (clipboard)");
    reveal_strlit("⎘ 复制（剪贴板）");
    assert(ZH_TRANSLATIONS@[127] == ("⎘ Copy (clipboard)", "⎘ 复制（剪贴板）"));
    let k = "⎘ Copy (clipboard)"@;
    let v = "⎘ 复制（剪贴板）"@;
    reveal_with_fuel(find_char_from, 18);
    assert(find_char_from(k, '{', 18) is None);
    assert(find_char_from(k, '{', 2) is None);
    assert(find_char_from(k, '{', 0) is None);
    assert(find_char_from(v, '{', 9) is None);
    assert(find_char_from(v, '{', 0) is None);
    reveal_with_fuel(placeholders_from, 2);
}

proof fn entry_128()
    ensures
        keeps_placeholders(ZH_TRANSLATIONS@[128]),
{
    reveal_strlit("⎘ Copy");
    reveal_strlit("⎘ 复制");
    assert(ZH_TRANSLATIONS@[128] == ("⎘ Copy", "⎘ 复制"));
    let k = "⎘ Copy"@;
    let v = "⎘ 复制"@;
    reveal_with_fuel(find_char_from, 18);
    assert(find_char_from(k, '{', 6) is None);
    assert(find_char_from(k, '{', 0) is None);
    assert(find_char_from(v, '{', 4) is None);
    assert(find_char_from(v, '{', 0) is None);
    reveal_with_fuel(placeholders_from, 2);
}

proof fn entry_129()
    ensures
        keeps_placeholders(ZH_TRANSLATIONS@[129]),
{
    reveal_strlit("✂ Cut (selection)");
    reveal_strlit("✂ 剪切（选中内容）");
    assert(ZH_TRANSLATIONS@[129] == ("✂ Cut (selection)", "✂ 剪切（选中内容）"));
    let k = "✂ Cut (selection)"@;
    let v = "✂ 剪切（选中内容）"@;
    reveal_with_fuel(find_char_from, 18);
    assert(find_char_from(k, '{', 17) is None);
    assert(find_char_from(k, '{', 1) is None);
    assert(find_char_from(k, '{', 0) is None);
    assert(find_char_from(v, '{', 10) is None);
    assert(find_char_from(v, '{', 0) is None);
    reveal_with_fuel(placeholders_from, 2);
}

proof fn entry_130()
    ensures
        keeps_placeholders(ZH_TRANSLATIONS@[130]),
{
    reveal_strlit("✂ Cut (buffer)");
    reveal_strlit("✂ 剪切（缓冲区）");
    assert(ZH_TRANSLATIONS@[130] == ("✂ Cut (buffer)", "✂ 剪切（缓冲区）"));
    let k = "✂ Cut (buffer)"@;
    let v = "✂ 剪切（缓冲区）"@;
    reveal_with_fuel(find_char_from, 18);
    assert(find_char_from(k, '{', 14) is None);
    assert(find_char_from(k, '{', 0) is None);
    assert(find_char_from(v, '{', 9) is None);
    assert(find_char_from(v, '{', 0) is None);
    reveal_with_fuel(placeholders_from, 2);
}

proof fn entry_131()
    ensures
        keeps_placeholders(ZH_TRANSLATIONS@[131]),
{
    reveal_strlit("⎗ Paste");
    reveal_strlit("⎗ 粘贴");
    assert(ZH_TRANSLATIONS@[131] == ("⎗ Paste", "⎗ 粘贴"));
    let k = "⎗ Paste"@;
    let v = "⎗ 粘贴"@;
    reveal_with_fuel(find_char_from, 18);
    assert(find_char_from(k, '{', 7) is None);
    assert(find_char_from(k, '{', 0) is None);
    assert(find_char_from(v, '{', 4) is None);
    assert(find_char_from(v, '{', 0) is None);
    reveal_with_fuel(placeholders_from, 2);
}

proof fn entry_132()
    ensures
        keeps_placeholders(ZH_TRANSLATIONS@[132]),
{
    reveal_strlit("↶ Undo");
    reveal_strlit("↶ 撤销");
    assert(ZH_TRANSLATIONS@[132] == ("↶ Undo", "↶ 撤销"));
    let k = "↶ Undo"@;
    let v = "↶ 撤销"@;
    reveal_with_fuel(find_char_from, 18);
    assert(find_char_from(k, '{', 6) is None);
    assert(find_char_from(k, '{', 0) is None);
    assert(find_char_from(v, '{', 4) is None);
    assert(find_char_from(v, '{', 0) is None);
    reveal_with_fuel(placeholders_from, 2);
}

proof fn entry_133()
    ensures
        keeps_placeholders(ZH_TRANSLATIONS@[133]),
{
    reveal_strlit("↷ Redo");
    reveal_strlit("↷ 重做");
    assert(ZH_TRANSLATIONS@[133] == ("↷ Redo", "↷ 重做"));
    let k = "↷ Redo"@;
    let v = "↷ 重做"@;
    reveal_with_fuel(find_char_from, 18);
    assert(find_char_from(k, '{', 6) is None);
    assert(find_char_from(k, '{', 0) is None);
    assert(find_char_from(v, '{', 4) is None);
    assert(find_char_from(v, '{', 0) is None);
    reveal_with_fuel(placeholders_from, 2);
}

proof fn entry_134()
    ensures
        keeps_placeholders(ZH_TRANSLATIONS@[134]),
{
    reveal_strlit("Run Tutorial");
    reveal_strlit("运行新手教程");
    assert(ZH_TRANSLATIONS@[134] == ("Run Tutorial", "运行新手教程"));
    let k = "Run Tutorial"@;
    let v = "运行新手教程"@;
    reveal_with_fuel(find_char_from, 18);
    assert(find_char_from(k, '{', 12) is None);
    assert(find_char_from(k, '{', 0) is None);
    assert(find_char_from(v, '{', 6) is None);
    assert(find_char_from(v, '{', 0) is None);
    reveal_with_fuel(placeholders_from, 2);
}

proof fn entry_135()
    ensures
        keeps_placeholders(ZH_TRANSLATIONS@[135]),
{
    reveal_strlit("Toggle mouse capture");
    reveal_strlit("切换鼠标捕获");
    assert(ZH_TRANSLATIONS@[135] == ("Toggle mouse capture", "切换鼠标捕获"));
    let k = "Toggle mouse capture"@;
    let v = "切换鼠标捕获"@;
    reveal_with_fuel(find_char_from, 18);
    assert(find_char_from(k, '{', 20) is None);
    assert(find_char_from(k, '{', 4) is None);
    assert(find_char_from(k, '{', 0) is None);
    assert(find_char_from(v, '{', 6) is None);
    assert(find_char_from(v, '{', 0) is None);
    reveal_with_fuel(placeholders_from, 2);
}

proof fn entry_136()
    ensures
        keeps_placeholders(ZH_TRANSLATIONS@[136]),
{
    reveal_strlit("with Escape.");
    reveal_strlit("使用 Escape。");
    assert(ZH_TRANSLATIONS@[136] == ("with Escape.", "使用 Escape。"));
    let k = "with Escape."@;
    let v = "使用 Escape。"@;
    reveal_with_fuel(find_char_from, 18);
    assert(find_char_from(k, '{', 12) is None);
    assert(find_char_from(k, '{', 0) is None);
    assert(find_char_from(v, '{', 10) is None);
    assert(find_char_from(v, '{', 0) is None);
    reveal_with_fuel(placeholders_from, 2);
}

proof fn entry_137()
    ensures
        keeps_placeholders(ZH_TRANSLATIONS@[137]),
{
    reveal_strlit("unknown");
    reveal_strlit("未知命令");
    assert(ZH_TRANSLATIONS@[137] == ("unknown", "未知命令"));
    let k = "unknown"@;
    let v = "未知命令"@;
    reveal_with_fuel(find_char_from, 18);
    assert(find_char_from(k, '{', 7) is None);
    assert(find_char_from(k, '{', 0) is None);
    assert(find_char_from(v, '{', 4) is None);
    assert(find_char_from(v, '{', 0) is None);
    reveal_with_fuel(placeholders_from, 2);
}

proof fn entry_138()
    ensures
        keeps_placeholders(ZH_TRANSLATIONS@[138]),
{
    reveal_strlit("alias: {}");
    reveal_strlit("别名：{}");
    assert(ZH_TRANSLATIONS@[138] == ("alias: {}", "别名：{}"));
    let k = "alias: {}"@;
    let v = "别名：{}"@;
    reveal_with_fuel(find_char_from, 18);
    assert(find_char_from(k, '{', 7) == Some(7int));
    assert(find_char_from(k, '{', 0) == Some(7int));
    assert(find_char_from(k, '}', 8) == Some(8int));
    assert(find_char_from(k, '}', 7) == Some(8int));
    assert(find_char_from(k, '{', 9) is None);
    assert(find_char_from(v, '{', 3) == Some(3int));
    assert(find_char_from(v, '{', 0) == Some(3int));
    assert(find_char_from(v, '}', 4) == Some(4int));
    assert(find_char_from(v, '}', 3) == Some(4int));
    assert(find_char_from(v, '{', 5) is None);
    assert(k.subrange(7, 9) =~= v.subrange(3, 5));
    reveal_with_fuel(placeholders_from, 3);
}

proof fn entry_139()
    ensures
        keeps_placeholders(ZH_TRANSLATIONS@[139]),
{
    reveal_strlit("keyword: {}");
    reveal_strlit("关键字：{}");
    assert(ZH_TRANSLATIONS@[139] == ("keyword: {}", "关键字：{}"));
    let k = "keyword: {}"@;
    let v = "关键字：{}"@;
    reveal_with_fuel(find_char_from, 18);
    assert(find_char_from(k, '{', 9) == Some(9int));
    assert(find_char_from(k, '{', 0) == Some(9int));
    assert(find_char_from(k, '}', 10) == Some(10int));
    assert(find_char_from(k, '}', 9) == Some(10int));
    assert(find_char_from(k, '{', 11) is None);
    assert(find_char_from(v, '{', 4) == Some(4int));
    assert(find_char_from(v, '{', 0) == Some(4int));
    assert(find_char_from(v, '}', 5) == Some(5int));
    assert(find_char_from(v, '}', 4) == Some(5int));
    assert(find_char_from(v, '{', 6) is None);
    assert(k.subrange(9, 11) =~= v.subrange(4, 6));
    reveal_with_fuel(placeholders_from, 3);
}

proof fn entry_140()
    ensures
        keeps_placeholders(ZH_TRANSLATIONS@[140]),
{
    reveal_strlit("builtin: {}");
    reveal_strlit("内建：{}");
    assert(ZH_TRANSLATIONS@[140] == ("builtin: {}", "内建：{}"));
    let k = "builtin: {}"@;
    let v = "内建：{}"@;
    reveal_with_fuel(find_char_from, 18);
    assert(find_char_from(k, '{', 9) == Some(9int));
    assert(find_char_from(k, '{', 0) == Some(9int));
    assert(find_char_from(k, '}', 10) == Some(10int));
    assert(find_char_from(k, '}', 9) == Some(10int));
    assert(find_char_from(k, '{', 11) is None);
    assert(find_char_from(v, '{', 3) == Some(3int));
    assert(find_char_from(v, '{', 0) == Some(3int));
    assert(find_char_from(v, '}', 4) == Some(4int));
    assert(find_char_from(v, '}', 3) == Some(4int));
    assert(find_char_from(v, '{', 5) is None);
    assert(k.subrange(9, 11) =~= v.subrange(3, 5));
    reveal_with_fuel(placeholders_from, 3);
}

proof fn entry_141()
    ensures
        keeps_placeholders(ZH_TRANSLATIONS@[141]),
{
    reveal_strlit("function {}:{}");
    reveal_strlit("函数 {}:{}");
    assert(ZH_TRANSLATIONS@[141] == ("function {}:{}", "函数 {}:{}"));
    let k = "function {}:{}"@;
    let v = "函数 {}:{}"@;
    reveal_with_fuel(find_char_from, 18);
    assert(find_char_from(k, '{', 9) == Some(9int));
    assert(find_char_from(k, '{', 0) == Some(9int));
    assert(find_char_from(k, '}', 10) == Some(10int));
    assert(find_char_from(k, '}', 9) == Some(10int));
    assert(find_char_from(k, '{', 12) == Some(12int));
    assert(find_char_from(k, '{', 11) == Some(12int));
    assert(find_char_from(k, '}', 13) == Some(13int));
    assert(find_char_from(k, '}', 12) == Some(13int));
    assert(find_char_from(k, '{', 14) is None);
    assert(find_char_from(v, '{', 3) == Some(3int));
    assert(find_char_from(v, '{', 0) == Some(3int));
    assert(find_char_from(v, '}', 4) == Some(4int));
    assert(find_char_from(v, '}', 3) == Some(4int));
    assert(find_char_from(v, '{', 6) == Some(6int));
    assert(find_char_from(v, '{', 5) == Some(6int));
    assert(find_char_from(v, '}', 7) == Some(7int));
    assert(find_char_from(v, '}', 6) == Some(7int));
    assert(find_char_from(v, '{', 8) is None);
    assert(k.subrange(9, 11) =~= v.subrange(3, 5));
    assert(k.subrange(12, 14) =~= v.subrange(6, 8));
    reveal_with_fuel(placeholders_from, 4);
}

proof fn entry_142()
    ensures
        keeps_placeholders(ZH_TRANSLATIONS@[142]),
{
    reveal_strlit("function {}");
    reveal_strlit("函数 {}");
    assert(ZH_TRANSLATIONS@[142] == ("function {}", "函数 {}"));
    let k = "function {}"@;
    let v = "函数 {}"@;
    reveal_with_fuel(find_char_from, 18);
    assert(find_char_from(k, '{', 9) == Some(9int));
    assert(find_char_from(k, '{', 0) == Some(9int));
    assert(find_char_from(k, '}', 10) == Some(10int));
    assert(find_char_from(k, '}', 9) == Some(10int));
    assert(find_char_from(k, '{', 11) is None);
    assert(find_char_from(v, '{', 3) == Some(3int));
    assert(find_char_from(v, '{', 0) == Some(3int));
    assert(find_char_from(v, '}', 4) == Some(4int));
    assert(find_char_from(v, '}', 3) == Some(4int));
    assert(find_char_from(v, '{', 5) is None);
    assert(k.subrange(9, 11) =~= v.subrange(3, 5));
    reveal_with_fuel(placeholders_from, 3);
}

proof fn entry_143()
    ensures
        keeps_placeholders(ZH_TRANSLATIONS@[143]),
{
    reveal_strlit("function :{}");
    reveal_strlit("函数 :{}");
    assert(ZH_TRANSLATIONS@[143] == ("function :{}", "函数 :{}"));
    let k = "function :{}"@;
    let v = "函数 :{}"@;
    reveal_with_fuel(find_char_from, 18);
    assert(find_char_from(k, '{', 10) == Some(10int));
    assert(find_char_from(k, '{', 0) == Some(10int));
    assert(find_char_from(k, '}', 11) == Some(11int));
    assert(find_char_from(k, '}', 10) == Some(11int));
    assert(find_char_from(k, '{', 12) is None);
    assert(find_char_from(v, '{', 4) == Some(4int));
    assert(find_char_from(v, '{', 0) == Some(4int));
    assert(find_char_from(v, '}', 5) == Some(5int));
    assert(find_char_from(v, '}', 4) == Some(5int));
    assert(find_char_from(v, '{', 6) is None);
    assert(k.subrange(10, 12) =~= v.subrange(4, 6));
    reveal_with_fuel(placeholders_from, 3);
}

proof fn entry_144()
    ensures
        keeps_placeholders(ZH_TRANSLATIONS@[144]),
{
    reveal_strlit("function");
    reveal_strlit("函数");
    assert(ZH_TRANSLATIONS@[144] == ("function", "函数"));
    let k = "function"@;
    let v = "函数"@;
    reveal_with_fuel(find_char_from, 18);
    assert(find_char_from(k, '{', 8) is None);
    assert(find_char_from(k, '{', 0) is None);
    assert(find_char_from(v, '{', 2) is None);
    assert(find_char_from(v, '{', 0) is None);
    reveal_with_fuel(placeholders_from, 2);
}

/// Every translation in `ZH_TRANSLATIONS` keeps the placeholders of its
/// English text, in order, so `translate_fmt` fills the same arguments into
/// the same slots in either language.
pub proof fn law_translations_keep_placeholders()
    ensures
        forall|i: int| 0 <= i < ZH_TRANSLATIONS@.len() ==> #[trigger] keeps_placeholders(ZH_TRANSLATIONS@[i]),
{
    assert forall|i: int| 0 <= i < ZH_TRANSLATIONS@.len() implies #[trigger] keeps_placeholders(ZH_TRANSLATIONS@[i]) by {
        if i == 0 { entry_0(); }
        if i == 1 { entry_1(); }
        if i == 2 { entry_2(); }
        if i == 3 { entry_3(); }
        if i == 4 { entry_4(); }
        if i == 5 { entry_5(); }
        if i == 6 { entry_6(); }
        if i == 7 { entry_7(); }
        if i == 8 { entry_8(); }
        if i == 9 { entry_9(); }
        if i == 10 { entry_10(); }
        if i == 11 { entry_11(); }
        if i == 12 { entry_12(); }
        if i == 13 { entry_13(); }
        if i == 14 { entry_14(); }
        if i == 15 { entry_15(); }
        if i == 16 { entry_16(); }
        if i == 17 { entry_17(); }
        if i == 18 { entry_18(); }
        if i == 19 { entry_19(); }
        if i == 20 { entry_20(); }
        if i == 21 { entry_21(); }
        if i == 22 { entry_22(); }
        if i == 23 { entry_23(); }
        if i == 24 { entry_24(); }
        if i == 25 { entry_25(); }
        if i == 26 { entry_26(); }
        if i == 27 { entry_27(); }
        if i == 28 { entry_28(); }
        if i == 29 { entry_29(); }
        if i == 30 { entry_30(); }
        if i == 31 { entry_31(); }
        if i == 32 { entry_32(); }
        if i == 33 { entry_33(); }
        if i == 34 { entry_34(); }
        if i == 35 { entry_35(); }
        if i == 36 { entry_36(); }
        if i == 37 { entry_37(); }
        if i == 38 { entry_38(); }
        if i == 39 { entry_39(); }
        if i == 40 { entry_40(); }
        if i == 41 { entry_41(); }
        if i == 42 { entry_42(); }
        if i == 43 { entry_43(); }
        if i == 44 { entry_44(); }
        if i == 45 { entry_45(); }
        if i == 46 { entry_46(); }
        if i == 47 { entry_47(); }
        if i == 48 { entry_48(); }
        if i == 49 { entry_49(); }
        if i == 50 { entry_50(); }
        if i == 51 { entry_51(); }
        if i == 52 { entry_52(); }
        if i == 53 { entry_53(); }
        if i == 54 { entry_54(); }
        if i == 55 { entry_55(); }
        if i == 56 { entry_56(); }
        if i == 57 { entry_57(); }
        if i == 58 { entry_58(); }
        if i == 59 { entry_59(); }
        if i == 60 { entry_60(); }
        if i == 61 { entry_61(); }
        if i == 62 { entry_62(); }
        if i == 63 { entry_63(); }
        if i == 64 { entry_64(); }
        if i == 65 { entry_65(); }
        if i == 66 { entry_66(); }
        if i == 67 { entry_67(); }
        if i == 68 { entry_68(); }
        if i == 69 { entry_69(); }
        if i == 70 { entry_70(); }
        if i == 71 { entry_71(); }
        if i == 72 { entry_72(); }
        if i == 73 { entry_73(); }
        if i == 74 { entry_74(); }
        if i == 75 { entry_75(); }
        if i == 76 { entry_76(); }
        if i == 77 { entry_77(); }
        if i == 78 { entry_78(); }
        if i == 79 { entry_79(); }
        if i == 80 { entry_80(); }
        if i == 81 { entry_81(); }
        if i == 82 { entry_82(); }
        if i == 83 { entry_83(); }
        if i == 84 { entry_84(); }
        if i == 85 { entry_85(); }
        if i == 86 { entry_86(); }
        if i == 87 { entry_87(); }
        if i == 88 { entry_88(); }
        if i == 89 { entry_89(); }
        if i == 90 { entry_90(); }
        if i == 91 { entry_91(); }
        if i == 92 { entry_92(); }
        if i == 93 { entry_93(); }
        if i == 94 { entry_94(); }
        if i == 95 { entry_95(); }
        if i == 96 { entry_96(); }
        if i == 97 { entry_97(); }
        if i == 98 { entry_98(); }
        if i == 99 { entry_99(); }
        if i == 100 { entry_100(); }
        if i == 101 { entry_101(); }
        if i == 102 { entry_102(); }
        if i == 103 { entry_103(); }
        if i == 104 { entry_104(); }
        if i == 105 { entry_105(); }
        if i == 106 { entry_106(); }
        if i == 107 { entry_107(); }
        if i == 108 { entry_108(); }
        if i == 109 { entry_109(); }
        if i == 110 { entry_110(); }
        if i == 111 { entry_111(); }
        if i == 112 { entry_112(); }
        if i == 113 { entry_113(); }
        if i == 114 { entry_114(); }
        if i == 115 { entry_115(); }
        if i == 116 { entry_116(); }
        if i == 117 { entry_117(); }
        if i == 118 { entry_118(); }
        if i == 119 { entry_119(); }
        if i == 120 { entry_120(); }
        if i == 121 { entry_121(); }
        if i == 122 { entry_122(); }
        if i == 123 { entry_123(); }
        if i == 124 { entry_124(); }
        if i == 125 { entry_125(); }
        if i == 126 { entry_126(); }
        if i == 127 { entry_127(); }
        if i == 128 { entry_128(); }
        if i == 129 { entry_129(); }
        if i == 130 { entry_130(); }
        if i == 131 { entry_131(); }
        if i == 132 { entry_132(); }
        if i == 133 { entry_133(); }
        if i == 134 { entry_134(); }
        if i == 135 { entry_135(); }
        if i == 136 { entry_136(); }
        if i == 137 { entry_137(); }
        if i == 138 { entry_138(); }
        if i == 139 { entry_139(); }
        if i == 140 { entry_140(); }
        if i == 141 { entry_141(); }
        if i == 142 { entry_142(); }
        if i == 143 { entry_143(); }
        if i == 144 { entry_144(); }
    }
}

} // verus!
