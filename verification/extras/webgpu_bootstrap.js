(() => {
  if (globalThis.navigator?.gpu) return;
  // Three.js' node-cache can transiently use an undefined chain key while
  // nested node graphs are being compiled. Browsers reject that key, but Boa
  // otherwise aborts the whole renderer initialization. Preserve native
  // WeakMap behavior for object keys while treating non-object keys as
  // cache misses in the embedded runtime.
  const NativeWeakMap = globalThis.WeakMap;
  class HyperThreeWeakMap {
    constructor(entries) {
      this.__native = new NativeWeakMap();
      if (entries) for (const entry of entries) this.set(entry[0], entry[1]);
    }
    get(key) { return key == null ? undefined : this.__native.get(key); }
    has(key) { return key == null ? false : this.__native.has(key); }
    set(key, value) {
      if (key != null) this.__native.set(key, value);
      return this;
    }
    delete(key) {
      if (key == null) {
        return false;
      }
      return this.__native.delete(key);
    }
  }
  globalThis.WeakMap = HyperThreeWeakMap;
  const makeHandle = (id, methods = {}) => Object.assign({ __hyperthreeHandle: id }, methods);
  const handleId = value => value?.__hyperthreeHandle ?? value;
  const descriptorJson = value => JSON.stringify(value ?? {});
  const bufferUsage = { MAP_READ: 1, MAP_WRITE: 2, COPY_SRC: 4, COPY_DST: 8, INDEX: 16, VERTEX: 32, UNIFORM: 64, STORAGE: 128, INDIRECT: 256, QUERY_RESOLVE: 512 };
  const textureUsage = { COPY_SRC: 1, COPY_DST: 2, TEXTURE_BINDING: 4, STORAGE_BINDING: 8, RENDER_ATTACHMENT: 16 };
  globalThis.GPUShaderStage = globalThis.GPUShaderStage || { VERTEX: 1, FRAGMENT: 2, COMPUTE: 4 };
  globalThis.GPUMapMode = globalThis.GPUMapMode || { READ: 1, WRITE: 2 };
  globalThis.GPUFeatureName = globalThis.GPUFeatureName || { 'timestamp-query': 'timestamp-query' };
  globalThis.HTMLCanvasElement = globalThis.HTMLCanvasElement || function HTMLCanvasElement() {};
  globalThis.HTMLVideoElement = globalThis.HTMLVideoElement || class HTMLVideoElement {
    constructor() {
      this.__listeners = new Map();
      this.__frameCallbacks = new Map();
      this.__nextFrameCallbackId = 0;
      this.__presentedFrames = 0;
      this.__loadPromise = Promise.resolve();
      this.__loadToken = 0;
      this.__rafId = null;
      this.__frames = [];
      this.__frameIndex = 0;
      this.__lastPumpTime = null;
      this._src = '';
      this.currentFrame = null;
      this.data = new Uint8Array(0);
      this.videoWidth = 0;
      this.videoHeight = 0;
      this._currentTime = 0;
      this.duration = 0;
      this.readyState = 0;
      this.networkState = 0;
      this.paused = true;
      this.ended = false;
      this.loop = false;
      this.autoplay = false;
      this.muted = false;
      this.volume = 1;
      this.playbackRate = 1;
      this.crossOrigin = null;
      this.preload = 'auto';
      this.HAVE_NOTHING = 0;
      this.HAVE_METADATA = 1;
      this.HAVE_CURRENT_DATA = 2;
      this.HAVE_FUTURE_DATA = 3;
      this.HAVE_ENOUGH_DATA = 4;
    }
    get src() { return this._src; }
    set src(value) { this._src = String(value); this.load(); }
    get currentSrc() { return this._src; }
    get width() { return this.videoWidth; }
    get height() { return this.videoHeight; }
    get currentTime() { return this._currentTime; }
    set currentTime(value) {
      let nextTime = Number(value);
      if (!Number.isFinite(nextTime) || nextTime < 0) nextTime = 0;
      if (this.duration > 0) nextTime = Math.min(nextTime, this.duration);
      this._currentTime = nextTime;
      if (this.currentFrame && this.__frames.length > 0) {
        const nextFrame = this.__frameIndexForTime(nextTime);
        if (nextFrame !== this.__frameIndex) this.__setFrame(nextFrame);
      }
    }
    addEventListener(type, listener) {
      if (typeof listener !== 'function') return;
      const listeners = this.__listeners.get(type) || new Set();
      listeners.add(listener);
      this.__listeners.set(type, listeners);
    }
    removeEventListener(type, listener) { this.__listeners.get(type)?.delete(listener); }
    dispatchEvent(event) {
      for (const listener of this.__listeners.get(event.type) || []) listener.call(this, event);
      const handler = this['on' + event.type];
      if (typeof handler === 'function') handler.call(this, event);
      return !event.defaultPrevented;
    }
    setAttribute(name, value) { if (String(name).toLowerCase() === 'src') this.src = value; }
    getAttribute(name) { return String(name).toLowerCase() === 'src' ? this._src : null; }
    canPlayType(type) { return String(type || '').startsWith('image/') ? 'probably' : ''; }
    __setFrame(index) {
      const frame = this.__frames[index];
      if (!frame) return;
      this.currentFrame?.close();
      this.__frameIndex = index;
      this.videoWidth = frame.width;
      this.videoHeight = frame.height;
      this.data = new Uint8Array(frame.data);
      this.currentFrame = new VideoFrame({
        width: frame.width,
        height: frame.height,
        data: this.data,
      }, { timestamp: Math.round(this.currentTime * 1000000) });
    }
    __frameIndexForTime(time) {
      let elapsed = 0;
      for (let index = 0; index < this.__frames.length; index += 1) {
        elapsed += this.__frames[index].durationMs / 1000;
        if (time < elapsed) return index;
      }
      return Math.max(0, this.__frames.length - 1);
    }
    load() {
      const token = ++this.__loadToken;
      this.readyState = this._src ? 1 : 0;
      this.networkState = this._src ? 2 : 0;
      this.ended = false;
      this.__frames = [];
      this.__frameIndex = 0;
      this.__lastPumpTime = null;
      if (!this._src) return;
      this.__loadPromise = fetch(this._src)
        .then(response => response.blob())
        .then(blob => {
          const isAnimatedGif = typeof globalThis.__hyperthreeDecodeAnimatedImage === 'function' &&
            /\.gif(?:[?#].*)?$/i.test(this._src);
          if (isAnimatedGif) {
            const animated = globalThis.__hyperthreeDecodeAnimatedImage(blob);
            return { animated: true, frames: animated.frames };
          }
          return createImageBitmap(blob).then(bitmap => {
            const frame = { width: bitmap.width, height: bitmap.height, data: new Uint8Array(bitmap.data), durationMs: 0 };
            bitmap.close?.();
            return { animated: false, frames: [frame] };
          });
        })
        .then(payload => {
          if (token !== this.__loadToken) return;
          this.__frames = payload.frames;
          this.currentTime = 0;
          this.duration = payload.animated ? payload.frames.reduce((total, frame) => total + frame.durationMs, 0) / 1000 : 0;
          this.__setFrame(0);
          this.readyState = 2;
          this.networkState = 1;
          this.dispatchEvent(new Event('loadedmetadata'));
          this.dispatchEvent(new Event('loadeddata'));
          this.dispatchEvent(new Event('canplay'));
        })
        .catch(error => {
          if (token !== this.__loadToken) return;
          this.readyState = 0;
          this.networkState = 3;
          this.dispatchEvent(Object.assign(new Event('error'), { error }));
        });
    }
    __notifyFrame() {
      if (!this.currentFrame) return;
      this.__presentedFrames += 1;
      const metadata = {
        mediaTime: this.currentTime,
        presentedFrames: this.__presentedFrames,
        expectedDisplayTime: performance.now(),
        width: this.videoWidth,
        height: this.videoHeight,
      };
      const callbacks = [...this.__frameCallbacks.values()];
      this.__frameCallbacks.clear();
      for (const callback of callbacks) callback(performance.now(), metadata);
    }
    __pump() {
      if (this.paused || !this.currentFrame || this.__rafId !== null) return;
      this.__rafId = requestAnimationFrame(() => {
        this.__rafId = null;
        if (this.paused) return;
        const now = performance.now();
        const elapsed = this.__lastPumpTime === null ? 0 : Math.max(0, now - this.__lastPumpTime) * Math.max(0, this.playbackRate);
        this.__lastPumpTime = now;
        if (this.__frames.length > 1 && this.duration > 0) {
          this.currentTime += elapsed / 1000;
          if (this.currentTime >= this.duration) {
            if (this.loop) {
              this.currentTime %= this.duration;
            } else {
              this.currentTime = this.duration;
              this.ended = true;
            }
          }
          const nextFrame = this.__frameIndexForTime(this.currentTime);
          if (nextFrame !== this.__frameIndex) this.__setFrame(nextFrame);
        }
        this.__notifyFrame();
        if (this.ended && !this.loop) {
          this.paused = true;
          this.dispatchEvent(new Event('ended'));
        } else if (this.__frames.length <= 1 && !this.loop) {
          this.ended = true;
          this.paused = true;
          this.dispatchEvent(new Event('ended'));
        } else if (this.loop && this.__frames.length <= 1) {
          this.__pump();
        } else {
          this.__pump();
        }
      });
    }
    play() {
      this.paused = false;
      this.ended = false;
      return this.__loadPromise.then(() => {
        if (this.readyState >= this.HAVE_CURRENT_DATA) {
          this.__lastPumpTime = performance.now();
          this.dispatchEvent(new Event('play'));
          this.__notifyFrame();
          this.__pump();
        }
      });
    }
    pause() {
      this.paused = true;
      if (this.__rafId !== null) cancelAnimationFrame(this.__rafId);
      this.__rafId = null;
      this.dispatchEvent(new Event('pause'));
    }
    fastSeek(time) {
      this.ended = false;
      this.currentTime = time;
      this.dispatchEvent(new Event('seeked'));
    }
    requestVideoFrameCallback(callback) {
      if (typeof callback !== 'function') throw new TypeError('video frame callback must be a function');
      const id = ++this.__nextFrameCallbackId;
      this.__frameCallbacks.set(id, callback);
      this.__pump();
      return id;
    }
    cancelVideoFrameCallback(id) { this.__frameCallbacks.delete(id); }
  };
  globalThis.HTMLImageElement = globalThis.HTMLImageElement || class HTMLImageElement {
    constructor() {
      this.__listeners = new Map();
      this.__loadToken = 0;
      this.__loadPromise = Promise.resolve();
      this.__loadError = null;
      this._src = '';
      this.crossOrigin = null;
      this.width = 0;
      this.height = 0;
      this.naturalWidth = 0;
      this.naturalHeight = 0;
      this.data = new Uint8Array(0);
      this.complete = false;
      this.__loadError = null;
      this.alt = '';
    }
    get src() { return this._src; }
    set src(value) {
      const token = ++this.__loadToken;
      this._src = String(value);
      this.complete = false;
      this.width = 0;
      this.height = 0;
      this.naturalWidth = 0;
      this.naturalHeight = 0;
      this.data = new Uint8Array(0);
      if (!this._src) {
        this.__loadPromise = Promise.resolve();
        return;
      }
      this.__loadPromise = fetch(this._src)
        .then(response => response.blob())
        .then(blob => createImageBitmap(blob))
        .then(bitmap => {
          if (token !== this.__loadToken) return;
          this.width = bitmap.width;
          this.height = bitmap.height;
          this.naturalWidth = bitmap.width;
          this.naturalHeight = bitmap.height;
          this.data = new Uint8Array(bitmap.data);
          this.complete = true;
          bitmap.close?.();
          this.dispatchEvent(new Event('load'));
        })
        .catch(error => {
          if (token !== this.__loadToken) return;
          this.complete = true;
          this.__loadError = error;
          this.dispatchEvent(Object.assign(new Event('error'), { error }));
        });
    }
    get currentSrc() { return this._src; }
    addEventListener(type, listener) {
      if (typeof listener !== 'function') return;
      const listeners = this.__listeners.get(type) || new Set();
      listeners.add(listener);
      this.__listeners.set(type, listeners);
    }
    removeEventListener(type, listener) { this.__listeners.get(type)?.delete(listener); }
    dispatchEvent(event) {
      for (const listener of this.__listeners.get(event.type) || []) listener.call(this, event);
      const handler = this['on' + event.type];
      if (typeof handler === 'function') handler.call(this, event);
      return !event.defaultPrevented;
    }
    decode() {
      return this.__loadPromise.then(() => {
        if (this.__loadError) throw this.__loadError;
      });
    }
    setAttribute(name, value) {
      const normalized = String(name).toLowerCase();
      if (normalized === 'src') this.src = value;
      else if (normalized === 'crossorigin') this.crossOrigin = value;
      else this[normalized] = value;
    }
    getAttribute(name) {
      const normalized = String(name).toLowerCase();
      if (normalized === 'src') return this._src;
      if (normalized === 'crossorigin') return this.crossOrigin;
      return this[normalized] ?? null;
    }
  };
  globalThis.Image = globalThis.Image || globalThis.HTMLImageElement;
  globalThis.ImageBitmap = globalThis.ImageBitmap || function ImageBitmap() {};
  globalThis.VideoFrame = globalThis.VideoFrame || function VideoFrame() {};
  globalThis.ImageData = globalThis.ImageData || class ImageData {
    constructor(dataOrWidth, widthOrHeight, height) {
      if (typeof dataOrWidth === 'number') {
        this.width = dataOrWidth;
        this.height = Number(widthOrHeight);
        this.data = new Uint8ClampedArray(this.width * this.height * 4);
      } else {
        this.data = new Uint8ClampedArray(dataOrWidth || 0);
        this.width = Number(widthOrHeight);
        this.height = height === undefined ? this.data.length / 4 / this.width : Number(height);
      }
      if (!Number.isInteger(this.width) || !Number.isInteger(this.height) || this.width <= 0 || this.height <= 0 || this.data.length !== this.width * this.height * 4) {
        throw new TypeError('ImageData dimensions do not match RGBA data');
      }
    }
  };
  globalThis.OffscreenCanvas = globalThis.OffscreenCanvas || function OffscreenCanvas() {};
  globalThis.GPUBufferUsage = globalThis.GPUBufferUsage || bufferUsage;
  globalThis.GPUTextureUsage = globalThis.GPUTextureUsage || textureUsage;
  const makeBuffer = (descriptor = {}) => {
    const size = descriptor.size ?? 1;
    const usage = descriptor.usage ?? GPUBufferUsage.COPY_DST;
    const id = __hyperthreeWebGpuCreateBuffer(size, usage);
    const mapped = descriptor.mappedAtCreation === true;
    let shadow = mapped ? new ArrayBuffer(size) : null;
    let mappedForRead = false;
    let mappedOffset = mapped ? 0 : null;
    let mappedSize = mapped ? size : 0;
    let bufferHandle;
    bufferHandle = makeHandle(id, {
      size,
      usage,
      mapState: mapped ? 'mapped' : 'unmapped',
      getMappedRange(offset = 0, rangeSize) {
        if (shadow === null) throw new TypeError('GPUBuffer is not mapped');
        if (rangeSize === undefined) rangeSize = mappedSize - (offset - (mappedOffset ?? 0));
        if (mappedOffset === null || offset < mappedOffset || offset + rangeSize > mappedOffset + mappedSize) {
          throw new RangeError('GPUBuffer mapped range is outside the active mapping');
        }
        const relativeOffset = offset - mappedOffset;
        return relativeOffset === 0 && rangeSize === mappedSize
          ? shadow
          : shadow.slice(relativeOffset, relativeOffset + rangeSize);
      },
      mapAsync: async (mode = GPUMapMode.READ, offset = 0, rangeSize = size - offset) => {
        if (shadow !== null) throw new TypeError('GPUBuffer is already mapped');
        mappedOffset = offset;
        mappedSize = rangeSize;
        if ((mode & GPUMapMode.READ) !== 0) {
          shadow = __hyperthreeWebGpuReadBuffer(id, offset, rangeSize);
          mappedForRead = true;
        } else {
          shadow = new ArrayBuffer(rangeSize);
          mappedForRead = false;
        }
        bufferHandle.mapState = 'mapped';
      },
      unmap() {
        if (shadow !== null && !mappedForRead) {
          __hyperthreeWebGpuWriteBuffer(id, mappedOffset ?? 0, new Uint8Array(shadow));
        }
        shadow = null;
        mappedForRead = false;
        mappedOffset = null;
        mappedSize = 0;
        bufferHandle.mapState = 'unmapped';
      },
      destroy: () => __hyperthreeWebGpuDestroyBuffer(id),
    });
    return bufferHandle;
  };
  const makeTexture = (descriptor = {}) => {
    const size = descriptor.size || {};
    const width = typeof size === 'number' ? size : (Array.isArray(size) ? (size[0] ?? 1) : (size.width ?? 1));
    const height = typeof size === 'number' ? 1 : (Array.isArray(size) ? (size[1] ?? 1) : (size.height ?? 1));
    const depth = typeof size === 'number' || Array.isArray(size) ? (Array.isArray(size) ? (size[2] ?? 1) : 1) : (size.depthOrArrayLayers ?? size.depth ?? 1);
    const format = descriptor.format ?? 'rgba8unorm';
    const usage = descriptor.usage ?? GPUTextureUsage.TEXTURE_BINDING;
    const mipLevelCount = descriptor.mipLevelCount ?? 1;
    const sampleCount = descriptor.sampleCount ?? 1;
    const dimension = descriptor.dimension ?? '2d';
    const id = __hyperthreeWebGpuCreateTexture(
      width,
      height,
      depth,
      format,
      usage,
      mipLevelCount,
      sampleCount,
      dimension,
    );
    return makeHandle(id, {
      width,
      height,
      depthOrArrayLayers: depth,
      mipLevelCount,
      sampleCount,
      dimension,
      format,
      usage,
      createView: (viewDescriptor = {}) => makeHandle(__hyperthreeWebGpuCreateTextureView(id, descriptorJson(viewDescriptor)), { __textureView: true }),
      destroy: () => __hyperthreeWebGpuDestroyTexture(id),
    });
  };
  const makeSurfaceTexture = () => {
    const id = __hyperthreeWebGpuGetCurrentTexture();
    return makeHandle(id, {
      __surfaceTexture: true,
      createView: (viewDescriptor = {}) => makeHandle(__hyperthreeWebGpuCreateTextureView(id, descriptorJson(viewDescriptor)), { __textureView: true }),
      destroy: () => __hyperthreeWebGpuDiscardSurfaceTexture(id),
    });
  };
  const canvasContext = {
    configure(configuration = {}) {
      __hyperthreeWebGpuConfigureCanvas(JSON.stringify({
        format: configuration.format,
        alphaMode: configuration.alphaMode,
        usage: configuration.usage,
      }));
      canvasContext.configuration = configuration;
    },
    unconfigure() { __hyperthreeWebGpuUnconfigureCanvas(); canvasContext.configuration = null; },
    getConfiguration() {
      const nativeConfiguration = JSON.parse(__hyperthreeWebGpuGetCanvasConfiguration());
      return Object.assign({}, canvasContext.configuration || {}, nativeConfiguration);
    },
    getCurrentTexture: makeSurfaceTexture,
  };
  const nativeCanvas = {
    style: {},
    clientWidth: 1280,
    clientHeight: 720,
    getContext(type) { return type === 'webgpu' ? canvasContext : null; },
    addEventListener(type, listener) { globalThis.addEventListener(type, listener); },
    removeEventListener(type, listener) { globalThis.removeEventListener(type, listener); },
    requestPointerLock() { __hyperthreeRequestPointerLock(); },
    requestFullscreen() { __hyperthreeRequestFullscreen(); return Promise.resolve(); },
    setPointerCapture() {},
    releasePointerCapture() {},
    setAttribute() {},
    getAttribute() { return null; },
  };
  let canvasWidth = 1280;
  let canvasHeight = 720;
  Object.defineProperties(nativeCanvas, {
    width: {
      configurable: true,
      get: () => canvasWidth,
      set: value => { canvasWidth = Math.max(1, Math.floor(Number(value) || 1)); __hyperthreeWebGpuResizeCanvas(canvasWidth, canvasHeight); },
    },
    height: {
      configurable: true,
      get: () => canvasHeight,
      set: value => { canvasHeight = Math.max(1, Math.floor(Number(value) || 1)); __hyperthreeWebGpuResizeCanvas(canvasWidth, canvasHeight); },
    },
  });
  Object.setPrototypeOf(nativeCanvas, HTMLCanvasElement.prototype);
  globalThis.__hyperthreeNativeCanvas = nativeCanvas;
  globalThis.document = globalThis.document || {
    createElement(name) {
      if (name === 'canvas') return nativeCanvas;
      if (name === 'video') return new HTMLVideoElement();
      if (name === 'img' || name === 'image') return new HTMLImageElement();
      return { style: {}, addEventListener() {}, removeEventListener() {} };
    },
    createElementNS(_namespace, name) { return this.createElement(String(name).toLowerCase()); },
    body: { appendChild() {}, removeChild() {} },
  };
  globalThis.document.exitPointerLock = () => { __hyperthreeExitPointerLock(); };
  globalThis.document.exitFullscreen = () => { __hyperthreeExitFullscreen(); return Promise.resolve(); };
  Object.defineProperty(globalThis.document, 'pointerLockElement', {
    configurable: true,
    get: () => __hyperthreeIsPointerLocked() ? nativeCanvas : null,
  });
  Object.defineProperty(globalThis.document, 'fullscreenElement', {
    configurable: true,
    get: () => __hyperthreeIsFullscreen() ? nativeCanvas : null,
  });
  const normalizeBindGroupEntry = entry => {
    const resource = entry.resource;
    let normalizedResource;
    if (resource?.__textureView) normalizedResource = { kind: 'textureView', view: handleId(resource) };
    else if (resource?.__sampler) normalizedResource = { kind: 'sampler', sampler: handleId(resource) };
    else if (resource?.buffer) normalizedResource = {
      kind: 'buffer', buffer: handleId(resource.buffer), offset: resource.offset ?? 0, size: resource.size ?? 0,
    };
    else throw new TypeError('unsupported GPUBindGroup resource');
    return { binding: entry.binding, resource: normalizedResource };
  };
  const normalizePipelineDescriptor = descriptor => ({
    layout: descriptor.layout === 'auto' || descriptor.layout == null ? null : handleId(descriptor.layout),
    vertex: {
      module: handleId(descriptor.vertex?.module),
      entryPoint: descriptor.vertex?.entryPoint ?? 'main',
      buffers: (descriptor.vertex?.buffers ?? []).map(buffer => ({
        arrayStride: buffer.arrayStride ?? 0,
        stepMode: buffer.stepMode ?? 'vertex',
        attributes: (buffer.attributes ?? []).map(attribute => ({
          format: attribute.format,
          offset: attribute.offset ?? 0,
          shaderLocation: attribute.shaderLocation,
        })),
      })),
    },
    fragment: descriptor.fragment ? {
      module: handleId(descriptor.fragment.module),
      entryPoint: descriptor.fragment.entryPoint ?? 'main',
      targets: (descriptor.fragment.targets ?? []).map(target => target == null ? null : ({
        format: target.format,
        blend: target.blend,
        writeMask: target.writeMask ?? 15,
      })),
    } : null,
    primitive: descriptor.primitive,
    depthStencil: descriptor.depthStencil,
    multisample: descriptor.multisample ? {
      count: descriptor.multisample.count ?? 1,
      mask: descriptor.multisample.mask ?? 0xffffffff,
      alphaToCoverageEnabled: descriptor.multisample.alphaToCoverageEnabled ?? false,
    } : null,
  });
  const normalizeRenderPassDescriptor = descriptor => ({
    colorAttachments: (descriptor.colorAttachments ?? []).map(attachment => attachment == null ? null : ({
      view: handleId(attachment.view),
      resolveTarget: attachment.resolveTarget ? handleId(attachment.resolveTarget) : null,
      loadOp: attachment.loadOp ?? 'load',
      storeOp: attachment.storeOp ?? 'store',
      clearValue: attachment.clearValue ?? { r: 0, g: 0, b: 0, a: 0 },
    })),
    depthStencilAttachment: descriptor.depthStencilAttachment ? {
      view: handleId(descriptor.depthStencilAttachment.view),
      depthLoadOp: descriptor.depthStencilAttachment.depthLoadOp ?? 'load',
      depthStoreOp: descriptor.depthStencilAttachment.depthStoreOp ?? 'store',
      depthClearValue: descriptor.depthStencilAttachment.depthClearValue ?? 1,
    } : null,
    occlusionQuerySet: descriptor.occlusionQuerySet ? handleId(descriptor.occlusionQuerySet) : null,
    timestampWrites: descriptor.timestampWrites ? {
      querySet: handleId(descriptor.timestampWrites.querySet),
      beginningOfPassWriteIndex: descriptor.timestampWrites.beginningOfPassWriteIndex,
      endOfPassWriteIndex: descriptor.timestampWrites.endOfPassWriteIndex,
    } : null,
  });
  const nativeFeatures = new Set([__HYPERTHREE_FEATURES__]);
  const nativeLimits = __HYPERTHREE_LIMITS__;
  const makeDevice = (descriptor = {}) => {
    for (const feature of descriptor.requiredFeatures ?? []) {
      if (!nativeFeatures.has(feature)) throw new TypeError(`required WebGPU feature is unavailable: ${feature}`);
    }
    for (const [name, requested] of Object.entries(descriptor.requiredLimits ?? {})) {
      if (!(name in nativeLimits) || typeof requested !== 'number' || requested > nativeLimits[name]) {
        throw new TypeError(`required WebGPU limit is unavailable: ${name}`);
      }
    }
    let resolveLost;
    const lost = new Promise(resolve => { resolveLost = resolve; });
    const pollLost = () => {
      const event = __hyperthreeWebGpuPollDeviceLost();
      if (event !== null) resolveLost(JSON.parse(event));
      else requestAnimationFrame(pollLost);
    };
    requestAnimationFrame(pollLost);
    const byteView = value => value instanceof ArrayBuffer
      ? new Uint8Array(value)
      : new Uint8Array(value.buffer, value.byteOffset ?? 0, value.byteLength ?? value.length);
    const queue = {
      writeBuffer(buffer, offset, data, dataOffset = 0, size) {
        const view = byteView(data);
        const elementSize = data.BYTES_PER_ELEMENT ?? 1;
        const start = dataOffset * elementSize;
        const end = size === undefined ? view.byteLength : start + size * elementSize;
        const bytes = view.subarray(start, end);
        __hyperthreeWebGpuWriteBuffer(buffer.__hyperthreeHandle, offset, bytes);
      },
      writeTexture(destination, data, dataLayout, size) {
        const view = byteView(data);
        const bytes = view.subarray(dataLayout.offset ?? 0);
        const origin = destination.origin ?? { x: 0, y: 0, z: 0 };
        const normalizedSize = Array.isArray(size) ? { width: size[0], height: size[1] ?? 1, depthOrArrayLayers: size[2] ?? 1 } : size;
        __hyperthreeWebGpuWriteTexture(
          destination.texture.__hyperthreeHandle,
          normalizedSize.width,
          normalizedSize.height,
          normalizedSize.depthOrArrayLayers ?? 1,
          dataLayout.bytesPerRow ?? normalizedSize.width * 4,
          dataLayout.rowsPerImage ?? normalizedSize.height,
          JSON.stringify([origin.x ?? 0, origin.y ?? 0, origin.z ?? 0]),
          destination.mipLevel ?? 0,
          bytes,
        );
      },
      copyExternalImageToTexture(source, destination, size) {
        const image = source.source;
        if (!image || !image.data) throw new TypeError('external image source has no RGBA data');
        const width = size.width;
        const height = size.height;
        const depth = size.depthOrArrayLayers ?? 1;
        let bytes = image.data;
        if (source.flipY === true) {
          const flipped = new Uint8Array(width * height * 4);
          for (let row = 0; row < height; row += 1) {
            const sourceOffset = row * width * 4;
            const targetOffset = (height - row - 1) * width * 4;
            flipped.set(bytes.subarray(sourceOffset, sourceOffset + width * 4), targetOffset);
          }
          bytes = flipped;
        }
        const origin = destination.origin ?? { x: 0, y: 0, z: 0 };
        __hyperthreeWebGpuWriteTexture(
          destination.texture.__hyperthreeHandle,
          width,
          height,
          depth,
          width * 4,
          height,
          JSON.stringify([origin.x ?? 0, origin.y ?? 0, origin.z ?? 0]),
          destination.mipLevel ?? 0,
          bytes,
        );
      },
      submit(commandBuffers) { __hyperthreeWebGpuSubmit(JSON.stringify((commandBuffers ?? []).map(handleId))); },
      onSubmittedWorkDone: async () => { __hyperthreeWebGpuWaitForSubmittedWork(); },
    };
    const device = {
      queue,
      features: new Set(nativeFeatures),
      limits: nativeLimits,
      createBuffer: makeBuffer,
      createTexture: makeTexture,
      importExternalTexture(descriptor = {}) {
        const source = descriptor.source;
        const width = source?.codedWidth ?? source?.displayWidth ?? source?.width;
        const height = source?.codedHeight ?? source?.displayHeight ?? source?.height;
        if (!source || !Number.isInteger(width) || !Number.isInteger(height) || width <= 0 || height <= 0 || !source.data) {
          throw new TypeError('native external texture source must provide width, height, and RGBA data');
        }
        const texture = makeTexture({
          size: { width, height },
          format: 'rgba8unorm',
          usage: GPUTextureUsage.COPY_DST | GPUTextureUsage.TEXTURE_BINDING,
        });
        queue.writeTexture(
          { texture },
          source.data,
          { offset: 0, bytesPerRow: width * 4, rowsPerImage: height },
          { width, height, depthOrArrayLayers: 1 },
        );
        const view = texture.createView();
        return makeHandle(handleId(view), {
          __textureView: true,
          __externalTexture: true,
          __externalBackingTexture: texture,
          destroy: () => texture.destroy(),
        });
      },
      createShaderModule(descriptor = {}) {
        return makeHandle(__hyperthreeWebGpuCreateShaderModule(descriptor.code ?? ''));
      },
      createBindGroupLayout(descriptor = {}) {
        return makeHandle(__hyperthreeWebGpuCreateBindGroupLayout(descriptorJson(descriptor)));
      },
      createPipelineLayout(descriptor = {}) {
        const normalized = { bindGroupLayouts: (descriptor.bindGroupLayouts ?? []).map(handleId) };
        return makeHandle(__hyperthreeWebGpuCreatePipelineLayout(descriptorJson(normalized)));
      },
      createBindGroup(descriptor = {}) {
        const normalized = {
          layout: handleId(descriptor.layout),
          entries: (descriptor.entries ?? []).map(normalizeBindGroupEntry),
        };
        return makeHandle(__hyperthreeWebGpuCreateBindGroup(descriptorJson(normalized)));
      },
      createSampler(descriptor = {}) {
        const id = __hyperthreeWebGpuCreateSampler(descriptorJson(descriptor));
        return makeHandle(id, { __sampler: true, destroy: () => __hyperthreeWebGpuDestroySampler(id) });
      },
      createRenderPipeline(descriptor = {}) {
        const id = __hyperthreeWebGpuCreateRenderPipeline(descriptorJson(normalizePipelineDescriptor(descriptor)));
        return makeHandle(id, {
          getBindGroupLayout: (index = 0) => makeHandle(__hyperthreeWebGpuGetRenderPipelineBindGroupLayout(id, index)),
        });
      },
      createRenderPipelineAsync: async (descriptor = {}) => device.createRenderPipeline(descriptor),
      createComputePipeline(descriptor = {}) {
        const normalized = {
          layout: descriptor.layout === 'auto' || descriptor.layout == null ? null : handleId(descriptor.layout),
          compute: {
            module: handleId(descriptor.compute?.module),
            entryPoint: descriptor.compute?.entryPoint ?? 'main',
          },
        };
        const id = __hyperthreeWebGpuCreateComputePipeline(descriptorJson(normalized));
        return makeHandle(id, {
          getBindGroupLayout: (index = 0) => makeHandle(__hyperthreeWebGpuGetComputePipelineBindGroupLayout(id, index)),
        });
      },
      createComputePipelineAsync: async (descriptor = {}) => device.createComputePipeline(descriptor),
      createQuerySet(descriptor = {}) {
        const id = __hyperthreeWebGpuCreateQuerySet(descriptorJson({
          type: descriptor.type,
          count: descriptor.count,
        }));
        return makeHandle(id, { destroy: () => __hyperthreeWebGpuDestroyQuerySet(id) });
      },
      createRenderBundleEncoder(descriptor = {}) {
        const id = __hyperthreeWebGpuCreateRenderBundleEncoder(descriptorJson({
          colorFormats: descriptor.colorFormats ?? [],
          depthStencilFormat: descriptor.depthStencilFormat,
          depthReadOnly: descriptor.depthReadOnly,
          stencilReadOnly: descriptor.stencilReadOnly,
          sampleCount: descriptor.sampleCount ?? 1,
        }));
        return makeRenderBundleEncoder(id);
      },
      createCommandEncoder() {
        const encoderId = __hyperthreeWebGpuCreateCommandEncoder();
        return makeHandle(encoderId, {
          beginRenderPass(descriptor = {}) {
            const passId = __hyperthreeWebGpuBeginRenderPass(encoderId, descriptorJson(normalizeRenderPassDescriptor(descriptor)));
            return makePass(passId);
          },
          beginComputePass(descriptor = {}) {
            const normalized = descriptor.timestampWrites ? {
              timestampWrites: {
                querySet: handleId(descriptor.timestampWrites.querySet),
                beginningOfPassWriteIndex: descriptor.timestampWrites.beginningOfPassWriteIndex,
                endOfPassWriteIndex: descriptor.timestampWrites.endOfPassWriteIndex,
              },
            } : {};
            return makePass(__hyperthreeWebGpuBeginComputePass(encoderId, descriptorJson(normalized)));
          },
          copyBufferToBuffer(source, sourceOffset, destination, destinationOffset, size) {
            __hyperthreeWebGpuEncoderCommand(encoderId, 'copyBufferToBuffer', JSON.stringify([
              handleId(source), sourceOffset ?? 0, handleId(destination), destinationOffset ?? 0, size,
            ]));
          },
          clearBuffer(buffer, offset = 0, size) {
            __hyperthreeWebGpuEncoderCommand(encoderId, 'clearBuffer', JSON.stringify([
              handleId(buffer), offset, size === undefined ? null : size,
            ]));
          },
          copyBufferToTexture(source, destination, size) {
            const normalizeSource = value => ({
              buffer: handleId(value.buffer),
              offset: value.offset ?? 0,
              bytesPerRow: value.bytesPerRow,
              rowsPerImage: value.rowsPerImage ?? (Array.isArray(size) ? size[1] : size.height ?? 1),
            });
            const normalizeDestination = value => ({
              texture: handleId(value.texture),
              mipLevel: value.mipLevel ?? 0,
              origin: Array.isArray(value.origin) ? value.origin : [value.origin?.x ?? 0, value.origin?.y ?? 0, value.origin?.z ?? 0],
            });
            const normalizedSize = Array.isArray(size) ? size : [size.width, size.height ?? 1, size.depthOrArrayLayers ?? 1];
            __hyperthreeWebGpuEncoderCommand(encoderId, 'copyBufferToTexture', JSON.stringify([
              normalizeSource(source), normalizeDestination(destination), normalizedSize,
            ]));
          },
          copyTextureToTexture(source, destination, size) {
            const normalizeCopy = value => ({
              texture: handleId(value.texture),
              mipLevel: value.mipLevel ?? 0,
              origin: Array.isArray(value.origin) ? value.origin : [value.origin?.x ?? 0, value.origin?.y ?? 0, value.origin?.z ?? 0],
            });
            const normalizedSize = Array.isArray(size) ? size : [size.width, size.height ?? 1, size.depthOrArrayLayers ?? 1];
            __hyperthreeWebGpuEncoderCommand(encoderId, 'copyTextureToTexture', JSON.stringify([
              normalizeCopy(source), normalizeCopy(destination), normalizedSize,
            ]));
          },
          copyTextureToBuffer(source, destination, size) {
            const normalizeSource = value => ({
              texture: handleId(value.texture),
              mipLevel: value.mipLevel ?? 0,
              origin: Array.isArray(value.origin) ? value.origin : [value.origin?.x ?? 0, value.origin?.y ?? 0, value.origin?.z ?? 0],
            });
            const normalizedSize = Array.isArray(size) ? size : [size.width, size.height ?? 1, size.depthOrArrayLayers ?? 1];
            __hyperthreeWebGpuEncoderCommand(encoderId, 'copyTextureToBuffer', JSON.stringify([
              normalizeSource(source),
              {
                buffer: handleId(destination.buffer),
                offset: destination.offset ?? 0,
                bytesPerRow: destination.bytesPerRow,
                rowsPerImage: destination.rowsPerImage ?? normalizedSize[1],
              },
              normalizedSize,
            ]));
          },
          resolveQuerySet(querySet, firstQuery, queryCount, destination, destinationOffset) {
            __hyperthreeWebGpuEncoderCommand(encoderId, 'resolveQuerySet', JSON.stringify([
              handleId(querySet), firstQuery, queryCount, handleId(destination), destinationOffset ?? 0,
            ]));
          },
          writeTimestamp(querySet, queryIndex) {
            __hyperthreeWebGpuEncoderCommand(encoderId, 'writeTimestamp', JSON.stringify([
              handleId(querySet), queryIndex,
            ]));
          },
          finish() { return makeHandle(__hyperthreeWebGpuFinishCommandEncoder(encoderId)); },
        });
      },
      pushErrorScope(filter) {
        __hyperthreeWebGpuPushErrorScope(filter);
      },
      async popErrorScope() {
        const error = __hyperthreeWebGpuPopErrorScope();
        return error === null ? null : { message: error };
      },
      lost,
      destroy: () => __hyperthreeWebGpuDestroyDevice(),
    };
    return device;
  };
  const makePass = passId => {
    const command = (operation, args) => __hyperthreeWebGpuPassCommand(passId, operation, JSON.stringify(args));
    return {
      setPipeline(pipeline) { command('setPipeline', [handleId(pipeline)]); },
      setBindGroup(index, bindGroup, dynamicOffsets = []) { command('setBindGroup', [index, handleId(bindGroup), dynamicOffsets]); },
      setVertexBuffer(slot, buffer, offset = 0, size) { command('setVertexBuffer', [slot, handleId(buffer), offset, size ?? null]); },
      setIndexBuffer(buffer, format, offset = 0) { command('setIndexBuffer', [handleId(buffer), offset, format]); },
      setViewport(x, y, width, height, minDepth, maxDepth) { command('setViewport', [x, y, width, height, minDepth, maxDepth]); },
      setScissorRect(x, y, width, height) { command('setScissorRect', [x, y, width, height]); },
      setBlendConstant(value) { command('setBlendConstant', [value.r, value.g, value.b, value.a]); },
      setStencilReference(value) { command('setStencilReference', [value]); },
      draw(vertexCount, instanceCount = 1, firstVertex = 0, firstInstance = 0) { command('draw', [vertexCount, instanceCount, firstVertex, firstInstance]); },
      drawIndexed(indexCount, instanceCount = 1, firstIndex = 0, baseVertex = 0, firstInstance = 0) { command('drawIndexed', [indexCount, instanceCount, firstIndex, baseVertex, firstInstance]); },
      drawIndirect(buffer, offset = 0) { command('drawIndirect', [handleId(buffer), offset]); },
      drawIndexedIndirect(buffer, offset = 0) { command('drawIndexedIndirect', [handleId(buffer), offset]); },
      beginOcclusionQuery(queryIndex) { command('beginOcclusionQuery', [queryIndex]); },
      endOcclusionQuery() { command('endOcclusionQuery', []); },
      executeBundles(bundles = []) { command('executeBundles', bundles.map(handleId)); },
      dispatchWorkgroups(x, y = 1, z = 1) { command('dispatchWorkgroups', [x, y, z]); },
      dispatchWorkgroupsIndirect(buffer, offset = 0) { command('dispatchWorkgroupsIndirect', [handleId(buffer), offset]); },
      end() { __hyperthreeWebGpuEndPass(passId); },
      endPass() { __hyperthreeWebGpuEndPass(passId); },
    };
  };
  const makeRenderBundleEncoder = encoderId => {
    const command = (operation, args) => __hyperthreeWebGpuRenderBundleCommand(encoderId, operation, JSON.stringify(args));
    return {
      setPipeline(pipeline) { command('setPipeline', [handleId(pipeline)]); },
      setBindGroup(index, bindGroup, dynamicOffsets = []) { command('setBindGroup', [index, handleId(bindGroup), dynamicOffsets]); },
      setVertexBuffer(slot, buffer, offset = 0, size) { command('setVertexBuffer', [slot, handleId(buffer), offset, size ?? null]); },
      setIndexBuffer(buffer, format, offset = 0) { command('setIndexBuffer', [handleId(buffer), offset, format]); },
      // Three.js' common backend calls these state setters while recording a
      // bundle. WebGPU render bundles inherit this state from the render pass,
      // so the native pass remains authoritative and these are compatibility no-ops.
      setViewport() {},
      setScissorRect() {},
      setBlendConstant() {},
      setStencilReference() {},
      draw(vertexCount, instanceCount = 1, firstVertex = 0, firstInstance = 0) { command('draw', [vertexCount, instanceCount, firstVertex, firstInstance]); },
      drawIndexed(indexCount, instanceCount = 1, firstIndex = 0, baseVertex = 0, firstInstance = 0) { command('drawIndexed', [indexCount, instanceCount, firstIndex, baseVertex, firstInstance]); },
      finish() {
        const id = __hyperthreeWebGpuFinishRenderBundleEncoder(encoderId);
        return makeHandle(id, { destroy: () => __hyperthreeWebGpuDestroyRenderBundle(id) });
      },
    };
  };
  const adapter = {
    name: 'HyperThree Native wgpu',
    features: new Set(nativeFeatures),
    limits: nativeLimits,
    info: { vendor: 'HyperThree', architecture: 'wgpu', device: 'native', description: 'HyperThree Native wgpu adapter' },
    isFallbackAdapter: false,
    requestDevice: async (descriptor = {}) => makeDevice(descriptor),
    requestAdapterInfo: async () => adapter.info,
  };
  globalThis.navigator = globalThis.navigator || {};
  globalThis.navigator.userAgent = globalThis.navigator.userAgent || 'HyperThreeNative/0.1';
  globalThis.navigator.platform = globalThis.navigator.platform || 'HyperThreeNative';
  globalThis.navigator.language = globalThis.navigator.language || 'en-US';
  globalThis.window = globalThis.window || globalThis;
  globalThis.window.devicePixelRatio = globalThis.window.devicePixelRatio || 1;
  globalThis.window.innerWidth = globalThis.window.innerWidth || nativeCanvas.width;
  globalThis.window.innerHeight = globalThis.window.innerHeight || nativeCanvas.height;
  globalThis.navigator.gpu = {
    requestAdapter: async (_options = {}) => adapter,
    getPreferredCanvasFormat: () => 'bgra8unorm-srgb',
  };
})();
