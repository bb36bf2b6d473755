//! The prompt template handed to the content generator.

use vstd::prelude::*;

verus! {

/// The prompt template; `{company_info}` and `{product_info}` are filled in by
/// the generator, not by this library.
pub const PROMPT_TEMPLATE: &'static str = r#"你是一个专业的内容营销专家。根据以下信息生成高质量的营销文章：

公司信息：{company_info}
产品信息：{product_info}

要求：
1. 文章标题要吸引人，突出产品特色
2. 内容要专业、有说服力
3. 语言要通俗易懂
4. 字数控制在800-1200字
5. 结构清晰，包含引言、主体和结论
6. 适当融入产品卖点

请生成一篇markdown格式的营销文章。"#;

/// The configured prompt template, as an owned string.
pub fn get_prompt_template() -> (r: String)
    ensures
        r@ == PROMPT_TEMPLATE@,
{
    String::from_str(PROMPT_TEMPLATE)
}

} // verus!
