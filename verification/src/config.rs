//! The singleton configuration document.
//!
//! Configuration is one text document at a fixed path. Loading never
//! fails on absence: with nothing stored, a compiled-in default payload
//! comes back instead. The payload is raw text here; nothing validates
//! it as data.

use vstd::prelude::*;

verus! {

/// The compiled-in default configuration payload.
pub open spec fn default_config_spec() -> Seq<char> {
    r#"{
  "ai": {
    "provider": "deepseek",
    "apiKey": "",
    "apiBaseUrl": "https://api.deepseek.com/v1",
    "modelName": "deepseek-chat",
    "temperature": 0.7,
    "maxTokens": 2000,
    "topP": 1.0,
    "presencePenalty": 0,
    "frequencyPenalty": 0
  },
  "game": {
    "dmStyle": "humanistic",
    "dmPrompt": "你是一位经验丰富的桌面角色扮演游戏(TRPG)的游戏主持人(Dungeon Master)。\n\n你的职责是：\n1. 根据角色的世界线背景、属性、天赋，创造沉浸式的叙事体验\n2. 描述场景时要生动、具体，调动玩家的感官体验\n3. 尊重历史背景的真实性，同时保持故事的戏剧性\n4. 根据判定结果(大成功/成功/失败/大失败)给出合理的叙事发展\n5. 让玩家的选择真正影响故事走向\n\n叙事风格：\n- 使用第二人称(\"你\")与玩家互动\n- 段落简洁有力，避免冗长描写\n- 在关键时刻给玩家选择的机会\n- 平衡叙事节奏，有张有弛\n\n请记住：你不是在写小说，而是在与玩家共同创造故事。",
    "autoSave": true,
    "autoSaveInterval": 60,
    "language": "zh-CN"
  },
  "ui": {
    "theme": "cassette-futurism",
    "fontSize": 14,
    "animationEnabled": true
  }
}"#@
}

/// The default configuration payload, as stored text.
pub fn get_default_config() -> (r: String)
    ensures
        r@ == default_config_spec(),
{
    r#"{
  "ai": {
    "provider": "deepseek",
    "apiKey": "",
    "apiBaseUrl": "https://api.deepseek.com/v1",
    "modelName": "deepseek-chat",
    "temperature": 0.7,
    "maxTokens": 2000,
    "topP": 1.0,
    "presencePenalty": 0,
    "frequencyPenalty": 0
  },
  "game": {
    "dmStyle": "humanistic",
    "dmPrompt": "你是一位经验丰富的桌面角色扮演游戏(TRPG)的游戏主持人(Dungeon Master)。\n\n你的职责是：\n1. 根据角色的世界线背景、属性、天赋，创造沉浸式的叙事体验\n2. 描述场景时要生动、具体，调动玩家的感官体验\n3. 尊重历史背景的真实性，同时保持故事的戏剧性\n4. 根据判定结果(大成功/成功/失败/大失败)给出合理的叙事发展\n5. 让玩家的选择真正影响故事走向\n\n叙事风格：\n- 使用第二人称(\"你\")与玩家互动\n- 段落简洁有力，避免冗长描写\n- 在关键时刻给玩家选择的机会\n- 平衡叙事节奏，有张有弛\n\n请记住：你不是在写小说，而是在与玩家共同创造故事。",
    "autoSave": true,
    "autoSaveInterval": 60,
    "language": "zh-CN"
  },
  "ui": {
    "theme": "cassette-futurism",
    "fontSize": 14,
    "animationEnabled": true
  }
}"#.to_owned()
}

/// The text a configuration load yields: the stored text when there is
/// one, the compiled-in default otherwise.
pub open spec fn config_text(stored: Option<Seq<char>>) -> Seq<char> {
    match stored {
        Some(c) => c,
        None => default_config_spec(),
    }
}

/// Loading yields exactly what a save stored, and the compiled-in
/// default when nothing was ever stored.
pub proof fn lemma_config_round_trip(x: Seq<char>)
    ensures
        config_text(Some(x)) == x,
        config_text(None) == default_config_spec(),
{
}

} // verus!
