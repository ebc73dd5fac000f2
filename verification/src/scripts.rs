use vstd::prelude::*;
use crate::text::{
    contains_text, decimal, lemma_contains_left, lemma_contains_right, lemma_contains_whole,
    push_decimal, push_signed_decimal, signed_decimal,
};

verus! {

/// The script that returns the HTML of the whole page with the values of
/// inputs and text areas cleared.
pub const PAGE_CONTENT: &'static str = r##"return (function(){
  const root = document.documentElement;
  if (!root) return null;
  const clone = root.cloneNode(true);
  const inputs = clone.querySelectorAll("input, textarea");
  inputs.forEach((el) => {
    el.setAttribute("value", "");
    if (el.tagName && el.tagName.toLowerCase() === "textarea") {
      el.textContent = "";
    }
  });
  return clone.outerHTML;
})();"##;

/// The script that returns the visible text of the page.
pub const PAGE_TEXT: &'static str = "return document.body.innerText;";

/// The script that scrolls to the top of the page.
pub const SCROLL_TOP: &'static str = "window.scrollTo(0, 0)";

/// The script that scrolls to the bottom of the page.
pub const SCROLL_BOTTOM: &'static str = "window.scrollTo(0, document.body.scrollHeight)";

/// The script that goes back in history.
pub const HISTORY_BACK: &'static str = "window.history.back()";

/// The script that goes forward in history.
pub const HISTORY_FORWARD: &'static str = "window.history.forward()";

/// The script that reloads the page.
pub const RELOAD: &'static str = "window.location.reload()";

/// The script that sends the page to `url`.
pub open spec fn navigate_script(url: Seq<char>) -> Seq<char> {
    r##"window.location.href = ""##@ + url + r##"""##@
}

/// Builds the text that `navigate_script` describes.
pub fn navigate_script_text(url: &str) -> (r: String)
    ensures
        r@ == navigate_script(url@),
{
    let mut s = String::from_str(r##"window.location.href = ""##);
    s.append(url);
    s.append(r##"""##);
    assert(s@ =~= navigate_script(url@));
    s
}

/// The script that reads the URL, title, ready state and (at most `max_len` characters of) text of the page or of the element that `selector_js` selects.
pub open spec fn ui_state_script(selector_js: Seq<char>, max_len: u64) -> Seq<char> {
    r##"return (function(){
  "##@ + r##"const sel = "##@ + selector_js + r##";"##@ + r##"
  let node = null;
  if (sel) {
    "##@ + r##"node = document.querySelector(sel);"##@ + r##"
  }
  const text = node ? (node.innerText || "") : (document.body ? (document.body.innerText || "") : "");
  const url = window.location.href;
  const title = document.title;
  const readyState = document.readyState;
  const trimmed = text.length > "##@ + decimal(max_len as nat) + r##" ? text.slice(0, "##@ + decimal(max_len as nat) + r##") : text;
  return { url, title, readyState, text: trimmed };
})();"##@
}

/// Builds the text that `ui_state_script` describes.
pub fn ui_state_script_text(selector_js: &str, max_len: u64) -> (r: String)
    ensures
        r@ == ui_state_script(selector_js@, max_len),
{
    let mut s = String::from_str(r##"return (function(){
  "##);
    s.append(r##"const sel = "##);
    s.append(selector_js);
    s.append(r##";"##);
    s.append(r##"
  let node = null;
  if (sel) {
    "##);
    s.append(r##"node = document.querySelector(sel);"##);
    s.append(r##"
  }
  const text = node ? (node.innerText || "") : (document.body ? (document.body.innerText || "") : "");
  const url = window.location.href;
  const title = document.title;
  const readyState = document.readyState;
  const trimmed = text.length > "##);
    push_decimal(&mut s, max_len);
    s.append(r##" ? text.slice(0, "##);
    push_decimal(&mut s, max_len);
    s.append(r##") : text;
  return { url, title, readyState, text: trimmed };
})();"##);
    assert(s@ =~= ui_state_script(selector_js@, max_len));
    s
}

/// The script that clicks the element that `selector` selects.
pub open spec fn click_script(selector: Seq<char>) -> Seq<char> {
    r##"(function() {
                        const el = document.querySelector(""##@ + selector + r##"");
                        if (el) { el.click(); return true; }
                        return false;
                    })()"##@
}

/// Builds the text that `click_script` describes.
pub fn click_script_text(selector: &str) -> (r: String)
    ensures
        r@ == click_script(selector@),
{
    let mut s = String::from_str(r##"(function() {
                        const el = document.querySelector(""##);
    s.append(selector);
    s.append(r##"");
                        if (el) { el.click(); return true; }
                        return false;
                    })()"##);
    assert(s@ =~= click_script(selector@));
    s
}

/// The script that sets the value of the element that `selector` selects to `text` and fires an input event.
pub open spec fn type_script(selector: Seq<char>, text: Seq<char>) -> Seq<char> {
    r##"(function() {
                        const el = document.querySelector(""##@ + selector + r##"");
                        if (el) {
                            el.value = ""##@ + text + r##"";
                            el.dispatchEvent(new Event('input', { bubbles: true }));
                            return true;
                        }
                        return false;
                    })()"##@
}

/// Builds the text that `type_script` describes.
pub fn type_script_text(selector: &str, text: &str) -> (r: String)
    ensures
        r@ == type_script(selector@, text@),
{
    let mut s = String::from_str(r##"(function() {
                        const el = document.querySelector(""##);
    s.append(selector);
    s.append(r##"");
                        if (el) {
                            el.value = ""##);
    s.append(text);
    s.append(r##"";
                            el.dispatchEvent(new Event('input', { bubbles: true }));
                            return true;
                        }
                        return false;
                    })()"##);
    assert(s@ =~= type_script(selector@, text@));
    s
}

/// The script that returns the scrubbed HTML of the page or of the element that `selector_js` selects.
pub open spec fn content_script(selector_js: Seq<char>) -> Seq<char> {
    r##"return (function(){
  "##@ + r##"const sel = "##@ + selector_js + r##";"##@ + r##"
  const scrub = (root) => {
    if (!root) return null;
    const clone = root.cloneNode(true);
    const inputs = clone.querySelectorAll("input, textarea");
    inputs.forEach((el) => {
      el.setAttribute("value", "");
      if (el.tagName && el.tagName.toLowerCase() === "textarea") {
        el.textContent = "";
      }
    });
    return clone;
  };
  "##@ + r##"const node = sel ? document.querySelector(sel) : document.documentElement;"##@ + r##"
  "##@ + r##"const cleaned = scrub(node);"##@ + r##"
  "##@ + r##"return cleaned ? cleaned.outerHTML : null;"##@ + r##"
})();"##@
}

/// Builds the text that `content_script` describes.
pub fn content_script_text(selector_js: &str) -> (r: String)
    ensures
        r@ == content_script(selector_js@),
{
    let mut s = String::from_str(r##"return (function(){
  "##);
    s.append(r##"const sel = "##);
    s.append(selector_js);
    s.append(r##";"##);
    s.append(r##"
  const scrub = (root) => {
    if (!root) return null;
    const clone = root.cloneNode(true);
    const inputs = clone.querySelectorAll("input, textarea");
    inputs.forEach((el) => {
      el.setAttribute("value", "");
      if (el.tagName && el.tagName.toLowerCase() === "textarea") {
        el.textContent = "";
      }
    });
    return clone;
  };
  "##);
    s.append(r##"const node = sel ? document.querySelector(sel) : document.documentElement;"##);
    s.append(r##"
  "##);
    s.append(r##"const cleaned = scrub(node);"##);
    s.append(r##"
  "##);
    s.append(r##"return cleaned ? cleaned.outerHTML : null;"##);
    s.append(r##"
})();"##);
    assert(s@ =~= content_script(selector_js@));
    s
}

/// The script that renders the page as it shows in the window (or the
/// element that `selector_js` selects, when it is not `null`) into a PNG
/// image: a copy of the element with every computed style written inline,
/// drawn through an SVG image onto a canvas. It returns the image's MIME
/// type, width, height and base64 data.
pub open spec fn screenshot_script(selector_js: Seq<char>) -> Seq<char> {
    r##"return (async function(){
  const sel = "##@ + selector_js + r##";
  const target = sel ? document.querySelector(sel) : document.documentElement;
  if (!target) {
    throw new Error("Element not found: " + sel);
  }
  const rect = target.getBoundingClientRect();
  const width = Math.max(1, Math.ceil(sel ? rect.width : window.innerWidth));
  const height = Math.max(1, Math.ceil(sel ? rect.height : window.innerHeight));
  const clone = target.cloneNode(true);
  const from = [target, ...target.querySelectorAll("*")];
  const to = [clone, ...clone.querySelectorAll("*")];
  for (let i = 0; i < from.length && i < to.length; i++) {
    const cs = window.getComputedStyle(from[i]);
    let text = "";
    for (let j = 0; j < cs.length; j++) {
      text += cs[j] + ":" + cs.getPropertyValue(cs[j]) + ";";
    }
    to[i].setAttribute("style", text);
  }
  to.forEach((el) => {
    const tag = el.tagName ? el.tagName.toLowerCase() : "";
    if (tag === "script" || tag === "noscript") {
      el.remove();
    }
  });
  if (!sel) {
    clone.style.transform = "translate(" + (-window.scrollX) + "px, " + (-window.scrollY) + "px)";
  }
  const xml = new XMLSerializer().serializeToString(clone);
  const svg = '<svg xmlns="http://www.w3.org/2000/svg" width="' + width + '" height="' + height
    + '"><foreignObject x="0" y="0" width="100%" height="100%">' + xml + '</foreignObject></svg>';
  const img = new Image();
  await new Promise((resolve, reject) => {
    img.onload = resolve;
    img.onerror = () => reject(new Error("Screenshot rendering failed"));
    img.src = "data:image/svg+xml;charset=utf-8," + encodeURIComponent(svg);
  });
  const canvas = document.createElement("canvas");
  canvas.width = width;
  canvas.height = height;
  canvas.getContext("2d").drawImage(img, 0, 0);
  const url = canvas.toDataURL("image/png");
  return { mimeType: "image/png", width, height, data: url.slice(url.indexOf(",") + 1) };
})();"##@
}

/// Builds the text that `screenshot_script` describes.
pub fn screenshot_script_text(selector_js: &str) -> (r: String)
    ensures
        r@ == screenshot_script(selector_js@),
{
    let mut s = String::from_str(r##"return (async function(){
  const sel = "##);
    s.append(selector_js);
    s.append(r##";
  const target = sel ? document.querySelector(sel) : document.documentElement;
  if (!target) {
    throw new Error("Element not found: " + sel);
  }
  const rect = target.getBoundingClientRect();
  const width = Math.max(1, Math.ceil(sel ? rect.width : window.innerWidth));
  const height = Math.max(1, Math.ceil(sel ? rect.height : window.innerHeight));
  const clone = target.cloneNode(true);
  const from = [target, ...target.querySelectorAll("*")];
  const to = [clone, ...clone.querySelectorAll("*")];
  for (let i = 0; i < from.length && i < to.length; i++) {
    const cs = window.getComputedStyle(from[i]);
    let text = "";
    for (let j = 0; j < cs.length; j++) {
      text += cs[j] + ":" + cs.getPropertyValue(cs[j]) + ";";
    }
    to[i].setAttribute("style", text);
  }
  to.forEach((el) => {
    const tag = el.tagName ? el.tagName.toLowerCase() : "";
    if (tag === "script" || tag === "noscript") {
      el.remove();
    }
  });
  if (!sel) {
    clone.style.transform = "translate(" + (-window.scrollX) + "px, " + (-window.scrollY) + "px)";
  }
  const xml = new XMLSerializer().serializeToString(clone);
  const svg = '<svg xmlns="http://www.w3.org/2000/svg" width="' + width + '" height="' + height
    + '"><foreignObject x="0" y="0" width="100%" height="100%">' + xml + '</foreignObject></svg>';
  const img = new Image();
  await new Promise((resolve, reject) => {
    img.onload = resolve;
    img.onerror = () => reject(new Error("Screenshot rendering failed"));
    img.src = "data:image/svg+xml;charset=utf-8," + encodeURIComponent(svg);
  });
  const canvas = document.createElement("canvas");
  canvas.width = width;
  canvas.height = height;
  canvas.getContext("2d").drawImage(img, 0, 0);
  const url = canvas.toDataURL("image/png");
  return { mimeType: "image/png", width, height, data: url.slice(url.indexOf(",") + 1) };
})();"##);
    assert(s@ =~= screenshot_script(selector_js@));
    s
}

/// The script that waits up to `timeout` milliseconds for an element that `selector_js` selects.
pub open spec fn wait_for_script(timeout: u64, selector_js: Seq<char>) -> Seq<char> {
    r##"return await new Promise((resolve) => {
  "##@ + r##"const timeout = setTimeout(() => resolve(false), "##@ + decimal(timeout as nat) + r##");"##@ + r##"
  const check = () => {
    "##@ + r##"const el = document.querySelector("##@ + selector_js + r##");"##@ + r##"
    "##@ + r##"if (el) {
      clearTimeout(timeout);
      resolve(true);"##@ + r##"
    } else {
      requestAnimationFrame(check);
    }
  };
  check();
});"##@
}

/// Builds the text that `wait_for_script` describes.
pub fn wait_for_script_text(timeout: u64, selector_js: &str) -> (r: String)
    ensures
        r@ == wait_for_script(timeout, selector_js@),
{
    let mut s = String::from_str(r##"return await new Promise((resolve) => {
  "##);
    s.append(r##"const timeout = setTimeout(() => resolve(false), "##);
    push_decimal(&mut s, timeout);
    s.append(r##");"##);
    s.append(r##"
  const check = () => {
    "##);
    s.append(r##"const el = document.querySelector("##);
    s.append(selector_js);
    s.append(r##");"##);
    s.append(r##"
    "##);
    s.append(r##"if (el) {
      clearTimeout(timeout);
      resolve(true);"##);
    s.append(r##"
    } else {
      requestAnimationFrame(check);
    }
  };
  check();
});"##);
    assert(s@ =~= wait_for_script(timeout, selector_js@));
    s
}

/// The script that records DOM mutations and returns those after `since`, at most `max` of them.
pub open spec fn watch_dom_script(since: u64, max: u64) -> Seq<char> {
    r##"return (function(){
  const key = "__MCP_DOM_WATCH__";
  const root = document.documentElement || document.body;
  if (!root) {
    return { lastId: 0, changes: [], url: location.href, title: document.title };
  }
  if (!window[key]) {
    const state = { seq: 0, changes: [] };
    const observer = new MutationObserver((mutations) => {
      for (const m of mutations) {
        const entry = {
          id: ++state.seq,
          type: m.type,
          target: m.target && m.target.nodeName ? m.target.nodeName.toLowerCase() : null,
          attributeName: m.attributeName || null,
          added: m.addedNodes ? m.addedNodes.length : 0,
          removed: m.removedNodes ? m.removedNodes.length : 0
        };
        state.changes.push(entry);
      }
      if (state.changes.length > 500) {
        state.changes = state.changes.slice(-500);
      }
    });
    observer.observe(root, { childList: true, subtree: true, attributes: true, characterData: true });
    state.observer = observer;
    window[key] = state;
  }
  const state = window[key];
  const since = "##@ + decimal(since as nat) + r##";
  const max = "##@ + decimal(max as nat) + r##";
  let changes = state.changes.filter((c) => c.id > since);
  if (max > 0 && changes.length > max) {
    changes = changes.slice(-max);
  }
  return { lastId: state.seq, changes, url: location.href, title: document.title };
})();"##@
}

/// Builds the text that `watch_dom_script` describes.
pub fn watch_dom_script_text(since: u64, max: u64) -> (r: String)
    ensures
        r@ == watch_dom_script(since, max),
{
    let mut s = String::from_str(r##"return (function(){
  const key = "__MCP_DOM_WATCH__";
  const root = document.documentElement || document.body;
  if (!root) {
    return { lastId: 0, changes: [], url: location.href, title: document.title };
  }
  if (!window[key]) {
    const state = { seq: 0, changes: [] };
    const observer = new MutationObserver((mutations) => {
      for (const m of mutations) {
        const entry = {
          id: ++state.seq,
          type: m.type,
          target: m.target && m.target.nodeName ? m.target.nodeName.toLowerCase() : null,
          attributeName: m.attributeName || null,
          added: m.addedNodes ? m.addedNodes.length : 0,
          removed: m.removedNodes ? m.removedNodes.length : 0
        };
        state.changes.push(entry);
      }
      if (state.changes.length > 500) {
        state.changes = state.changes.slice(-500);
      }
    });
    observer.observe(root, { childList: true, subtree: true, attributes: true, characterData: true });
    state.observer = observer;
    window[key] = state;
  }
  const state = window[key];
  const since = "##);
    push_decimal(&mut s, since);
    s.append(r##";
  const max = "##);
    push_decimal(&mut s, max);
    s.append(r##";
  let changes = state.changes.filter((c) => c.id > since);
  if (max > 0 && changes.length > max) {
    changes = changes.slice(-max);
  }
  return { lastId: state.seq, changes, url: location.href, title: document.title };
})();"##);
    assert(s@ =~= watch_dom_script(since, max));
    s
}

/// The script that records user interactions and returns those after `since`, at most `max` of them.
/// Each recorded event carries its sequence number under `id`, the number that
/// `since` and `lastId` count in, and the target element's id under `elementId`.
pub open spec fn watch_events_script(since: u64, max: u64) -> Seq<char> {
    r##"return (function(){
  const key = "__MCP_EVENT_WATCH__";
  if (!window[key]) {
    const state = { seq: 0, events: [] };
    const push = (type, target) => {
      const tag = target && target.tagName ? target.tagName.toLowerCase() : null;
      const idAttr = target && target.id ? target.id : null;
      const nameAttr = target && target.getAttribute ? target.getAttribute("name") : null;
      const ariaLabel = target && target.getAttribute ? target.getAttribute("aria-label") : null;
      const classList = target && target.className ? String(target.className).split(/\\s+/).slice(0, 4) : [];
      const entry = {
        id: ++state.seq,
        type,
        tag,
        elementId: idAttr,
        name: nameAttr,
        classes: classList,
        ariaLabel
      };
      state.events.push(entry);
      if (state.events.length > 500) {
        state.events = state.events.slice(-500);
      }
    };
    document.addEventListener("click", (e) => push("click", e.target), true);
    document.addEventListener("submit", (e) => push("submit", e.target), true);
    document.addEventListener("change", (e) => push("change", e.target), true);
    document.addEventListener("input", (e) => push("input", e.target), true);
    window[key] = state;
  }
  const state = window[key];
  const since = "##@ + decimal(since as nat) + r##";
  const max = "##@ + decimal(max as nat) + r##";
  let events = state.events.filter((e) => e.id > since);
  if (max > 0 && events.length > max) {
    events = events.slice(-max);
  }
  return { lastId: state.seq, events, url: location.href, title: document.title };
})();"##@
}

/// Builds the text that `watch_events_script` describes.
pub fn watch_events_script_text(since: u64, max: u64) -> (r: String)
    ensures
        r@ == watch_events_script(since, max),
{
    let mut s = String::from_str(r##"return (function(){
  const key = "__MCP_EVENT_WATCH__";
  if (!window[key]) {
    const state = { seq: 0, events: [] };
    const push = (type, target) => {
      const tag = target && target.tagName ? target.tagName.toLowerCase() : null;
      const idAttr = target && target.id ? target.id : null;
      const nameAttr = target && target.getAttribute ? target.getAttribute("name") : null;
      const ariaLabel = target && target.getAttribute ? target.getAttribute("aria-label") : null;
      const classList = target && target.className ? String(target.className).split(/\\s+/).slice(0, 4) : [];
      const entry = {
        id: ++state.seq,
        type,
        tag,
        elementId: idAttr,
        name: nameAttr,
        classes: classList,
        ariaLabel
      };
      state.events.push(entry);
      if (state.events.length > 500) {
        state.events = state.events.slice(-500);
      }
    };
    document.addEventListener("click", (e) => push("click", e.target), true);
    document.addEventListener("submit", (e) => push("submit", e.target), true);
    document.addEventListener("change", (e) => push("change", e.target), true);
    document.addEventListener("input", (e) => push("input", e.target), true);
    window[key] = state;
  }
  const state = window[key];
  const since = "##);
    push_decimal(&mut s, since);
    s.append(r##";
  const max = "##);
    push_decimal(&mut s, max);
    s.append(r##";
  let events = state.events.filter((e) => e.id > since);
  if (max > 0 && events.length > max) {
    events = events.slice(-max);
  }
  return { lastId: state.seq, events, url: location.href, title: document.title };
})();"##);
    assert(s@ =~= watch_events_script(since, max));
    s
}

/// The text of the evaluation script before the marker's literal.
pub open spec fn eval_wrapper_head() -> Seq<char> {
    r##"(async () => {
  "##@ + r##"const prefix = "##@
}

/// The text of the evaluation script between the marker's literal and the
/// code's literal.
pub open spec fn eval_wrapper_mid() -> Seq<char> {
    r##";"##@ + r##"
  "##@ + r##"const userCode = "##@
}

/// The text of the evaluation script after the code's literal.
pub open spec fn eval_wrapper_tail() -> Seq<char> {
    r##";"##@ + r##"
  const run = async () => {
    const fn = new Function("return (async () => { " + userCode + " })()");
    return await fn();
  };
  try {
    "##@ + r##"const value = await run();"##@ + r##"
    "##@ + r##"const payload = JSON.stringify({ ok: true, value: (value === undefined ? null : value) });"##@ + r##"
    "##@ + r##"document.title = prefix + payload;"##@ + r##"
  } catch (e) {
    const payload = JSON.stringify({ ok: false, error: String(e) });
    "##@ + r##"document.title = prefix + payload;"##@ + r##"
  }
})();"##@
}

/// The script that runs `user_code` (a JSON string literal) and writes its outcome into the document title behind `prefix_js` (a JSON string literal).
pub open spec fn eval_wrapper_script(prefix_js: Seq<char>, user_code: Seq<char>) -> Seq<char> {
    eval_wrapper_head() + prefix_js + eval_wrapper_mid() + user_code + eval_wrapper_tail()
}

/// Builds the text that `eval_wrapper_script` describes.
pub fn eval_wrapper_script_text(prefix_js: &str, user_code: &str) -> (r: String)
    ensures
        r@ == eval_wrapper_script(prefix_js@, user_code@),
{
    let mut s = String::from_str(r##"(async () => {
  "##);
    s.append(r##"const prefix = "##);
    s.append(prefix_js);
    s.append(r##";"##);
    s.append(r##"
  "##);
    s.append(r##"const userCode = "##);
    s.append(user_code);
    s.append(r##";"##);
    s.append(r##"
  const run = async () => {
    const fn = new Function("return (async () => { " + userCode + " })()");
    return await fn();
  };
  try {
    "##);
    s.append(r##"const value = await run();"##);
    s.append(r##"
    "##);
    s.append(r##"const payload = JSON.stringify({ ok: true, value: (value === undefined ? null : value) });"##);
    s.append(r##"
    "##);
    s.append(r##"document.title = prefix + payload;"##);
    s.append(r##"
  } catch (e) {
    const payload = JSON.stringify({ ok: false, error: String(e) });
    "##);
    s.append(r##"document.title = prefix + payload;"##);
    s.append(r##"
  }
})();"##);
    assert(s@ =~= eval_wrapper_script(prefix_js@, user_code@));
    s
}

/// The script that scrolls the page up by `amount` pixels.
pub open spec fn scroll_up_script(amount: i64) -> Seq<char> {
    r##"window.scrollBy(0, -"##@ + signed_decimal(amount as int) + r##")"##@
}

/// Builds the text that `scroll_up_script` describes.
pub fn scroll_up_script_text(amount: i64) -> (r: String)
    ensures
        r@ == scroll_up_script(amount),
{
    let mut s = String::from_str(r##"window.scrollBy(0, -"##);
    push_signed_decimal(&mut s, amount);
    s.append(r##")"##);
    assert(s@ =~= scroll_up_script(amount));
    s
}

/// The script that scrolls the page down by `amount` pixels.
pub open spec fn scroll_down_script(amount: i64) -> Seq<char> {
    r##"window.scrollBy(0, "##@ + signed_decimal(amount as int) + r##")"##@
}

/// Builds the text that `scroll_down_script` describes.
pub fn scroll_down_script_text(amount: i64) -> (r: String)
    ensures
        r@ == scroll_down_script(amount),
{
    let mut s = String::from_str(r##"window.scrollBy(0, "##);
    push_signed_decimal(&mut s, amount);
    s.append(r##")"##);
    assert(s@ =~= scroll_down_script(amount));
    s
}

} // verus!

verus! {

/// The wait script waits for the selector's element: its timer of `timeout`
/// milliseconds is the only thing that resolves `false`, and the check,
/// repeated on every animation frame, resolves `true` (and stops the timer)
/// as soon as `document.querySelector` of the selector finds an element.
pub proof fn lemma_wait_for_script_waits_for_selector(timeout: u64, selector_js: Seq<char>)
    ensures
        contains_text(
            wait_for_script(timeout, selector_js),
            r##"const timeout = setTimeout(() => resolve(false), "##@ + decimal(timeout as nat)
                + r##");"##@,
        ),
        contains_text(
            wait_for_script(timeout, selector_js),
            r##"const el = document.querySelector("##@ + selector_js + r##");"##@,
        ),
        contains_text(
            wait_for_script(timeout, selector_js),
            r##"if (el) {
      clearTimeout(timeout);
      resolve(true);"##@,
        ),
{
    broadcast use lemma_contains_left, lemma_contains_right;

    let s = wait_for_script(timeout, selector_js);
    let start = r##"return await new Promise((resolve) => {
  "##@;
    let timer = r##"const timeout = setTimeout(() => resolve(false), "##@ + decimal(timeout as nat)
        + r##");"##@;
    let i = start.len() as int;
    assert(s.subrange(i, i + timer.len()) =~= timer);
    let check = r##"
  const check = () => {
    "##@;
    let el = r##"const el = document.querySelector("##@ + selector_js + r##");"##@;
    let j = i + timer.len() + check.len();
    assert(s.subrange(j, j + el.len()) =~= el);
    lemma_contains_whole(r##"if (el) {
      clearTimeout(timeout);
      resolve(true);"##@);
}


/// The evaluation script hands the page the marker and the code and
/// reports the code's awaited value: `prefix` is bound to the marker's
/// literal and `userCode` to the code's literal; the code's result is
/// awaited before it is read (`const value = await run();`), and on success
/// the title gets the marker followed by `{"ok": true, "value": value}`.
pub proof fn lemma_eval_script_reports_awaited_value(prefix_js: Seq<char>, user_code: Seq<char>)
    ensures
        contains_text(
            eval_wrapper_script(prefix_js, user_code),
            r##"const prefix = "##@ + prefix_js + r##";"##@,
        ),
        contains_text(
            eval_wrapper_script(prefix_js, user_code),
            r##"const userCode = "##@ + user_code + r##";"##@,
        ),
        contains_text(eval_wrapper_script(prefix_js, user_code), r##"const value = await run();"##@),
        contains_text(eval_wrapper_script(prefix_js, user_code), r##"const payload = JSON.stringify({ ok: true, value: (value === undefined ? null : value) });"##@),
        contains_text(eval_wrapper_script(prefix_js, user_code), r##"document.title = prefix + payload;"##@),
{
    broadcast use lemma_contains_left, lemma_contains_right;

    let s = eval_wrapper_script(prefix_js, user_code);
    let p = r##"const prefix = "##@ + prefix_js + r##";"##@;
    let i = r##"(async () => {
  "##@.len() as int;
    assert(s.subrange(i, i + p.len()) =~= p);
    let c = r##"const userCode = "##@ + user_code + r##";"##@;
    let j: int = (eval_wrapper_head().len() + prefix_js.len() + r##";"##@.len() + r##"
  "##@.len()) as int;
    assert(s.subrange(j, j + c.len()) =~= c);
    lemma_contains_whole(r##"const value = await run();"##@);
    lemma_contains_whole(r##"const payload = JSON.stringify({ ok: true, value: (value === undefined ? null : value) });"##@);
    lemma_contains_whole(r##"document.title = prefix + payload;"##@);
}

/// The content script reads the element that the selector picks: `sel` is
/// bound to the selector's literal, the node is `document.querySelector(sel)`
/// when `sel` is not `null` and the whole document only when it is, and the
/// script returns that node's outer HTML after scrubbing its form values.
pub proof fn lemma_content_script_selects(selector_js: Seq<char>)
    ensures
        contains_text(content_script(selector_js), r##"const sel = "##@ + selector_js + r##";"##@),
        contains_text(content_script(selector_js), r##"const node = sel ? document.querySelector(sel) : document.documentElement;"##@),
        contains_text(content_script(selector_js), r##"const cleaned = scrub(node);"##@),
        contains_text(content_script(selector_js), r##"return cleaned ? cleaned.outerHTML : null;"##@),
{
    broadcast use lemma_contains_left, lemma_contains_right;

    let s = content_script(selector_js);
    let b = r##"const sel = "##@ + selector_js + r##";"##@;
    let i = r##"return (function(){
  "##@.len() as int;
    assert(s.subrange(i, i + b.len()) =~= b);
    lemma_contains_whole(r##"const node = sel ? document.querySelector(sel) : document.documentElement;"##@);
    lemma_contains_whole(r##"const cleaned = scrub(node);"##@);
    lemma_contains_whole(r##"return cleaned ? cleaned.outerHTML : null;"##@);
}

/// The UI-state script reads the text of the element that the selector
/// picks: `sel` is bound to the selector's literal and, when it is not
/// `null`, the node is `document.querySelector(sel)`.
pub proof fn lemma_ui_state_script_selects(selector_js: Seq<char>, max_len: u64)
    ensures
        contains_text(ui_state_script(selector_js, max_len), r##"const sel = "##@ + selector_js + r##";"##@),
        contains_text(ui_state_script(selector_js, max_len), r##"node = document.querySelector(sel);"##@),
{
    broadcast use lemma_contains_left, lemma_contains_right;

    let s = ui_state_script(selector_js, max_len);
    let b = r##"const sel = "##@ + selector_js + r##";"##@;
    let i = r##"return (function(){
  "##@.len() as int;
    assert(s.subrange(i, i + b.len()) =~= b);
    lemma_contains_whole(r##"node = document.querySelector(sel);"##@);
}

} // verus!
